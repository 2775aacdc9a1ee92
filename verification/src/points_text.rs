//! Recognition of numeric tokens and `x y` rows in pasted text, spreadsheet rows and the
//! point editor's own text format.
//!
//! The functions here decide which characters form the two numbers of a point and which
//! rows are rejected; turning a recognized token into a floating-point value is left to the
//! caller.

use vstd::prelude::*;
use crate::text::{
    decimal_text, is_ascii_digit, is_whitespace, push_chars, push_decimal, spec_is_ascii_alphanumeric,
    spec_is_ascii_digit, spec_is_whitespace, spec_trim, trim_chars,
};

verus! {

// ---------------------------------------------------------------------------------------
// Numeric token grammar
// ---------------------------------------------------------------------------------------

/// A character that may continue an identifier: ASCII letter, digit or underscore.
pub open spec fn spec_is_word_char(c: char) -> bool {
    spec_is_ascii_alphanumeric(c) || c == '_'
}

/// A character that may open a numeric token: a digit, a sign or a decimal separator.
pub open spec fn spec_is_number_start(c: char) -> bool {
    spec_is_ascii_digit(c) || c == '+' || c == '-' || c == '.' || c == ','
}

pub open spec fn spec_is_sign(c: char) -> bool {
    c == '+' || c == '-'
}

pub open spec fn spec_is_decimal_separator(c: char) -> bool {
    c == '.' || c == ','
}

pub open spec fn spec_is_exponent_marker(c: char) -> bool {
    c == 'e' || c == 'E'
}

/// The end of the run of ASCII digits that starts at `i`.
pub open spec fn digits_end(s: Seq<char>, i: int) -> int
    decreases s.len() - i,
{
    if 0 <= i < s.len() && spec_is_ascii_digit(s[i]) {
        digits_end(s, i + 1)
    } else {
        i
    }
}

/// Where a number that ends its mantissa at `i` ends once an exponent is taken in: an
/// exponent marker counts only when at least one digit follows it (after an optional sign).
pub open spec fn exponent_end(s: Seq<char>, i: int) -> int {
    if 0 <= i < s.len() && spec_is_exponent_marker(s[i]) {
        let j = if i + 1 < s.len() && spec_is_sign(s[i + 1]) {
            i + 2
        } else {
            i + 1
        };
        let e = digits_end(s, j);
        if e == j {
            i
        } else {
            e
        }
    } else {
        i
    }
}

/// The end of the numeric token starting at `start`: optional sign, integer digits,
/// optional `.` or `,` with fraction digits (at least one digit overall), optional exponent.
/// `None` when no number starts there.
pub open spec fn spec_token_end(s: Seq<char>, start: int) -> Option<int> {
    let body = if spec_is_sign(s[start]) {
        start + 1
    } else {
        start
    };
    if body >= s.len() {
        None
    } else {
        let int_end = digits_end(s, body);
        let has_integer = int_end > body;
        let has_separator = int_end < s.len() && spec_is_decimal_separator(s[int_end]);
        let frac_end = if has_separator {
            digits_end(s, int_end + 1)
        } else {
            int_end
        };
        let has_fraction = has_separator && frac_end > int_end + 1;
        if !has_integer && !has_fraction {
            None
        } else {
            Some(exponent_end(s, frac_end))
        }
    }
}

/// A digit right after a sign or separator is the middle of something already rejected.
pub open spec fn spec_digit_after_disallowed_prefix(s: Seq<char>, i: int) -> bool {
    &&& i > 0
    &&& spec_is_ascii_digit(s[i])
    &&& (spec_is_sign(s[i - 1]) || spec_is_decimal_separator(s[i - 1]))
}

/// Whether a token may start at `i`: a number-start character not glued to a word or
/// following a sign or separator.
pub open spec fn spec_may_start_token(s: Seq<char>, i: int) -> bool {
    &&& spec_is_number_start(s[i])
    &&& !spec_digit_after_disallowed_prefix(s, i)
    &&& !(i > 0 && spec_is_word_char(s[i - 1]))
}

/// The end of the token that starts at `i`, if one does.
pub open spec fn spec_token_at(s: Seq<char>, i: int) -> Option<int> {
    if spec_may_start_token(s, i) {
        match spec_token_end(s, i) {
            Some(e) => if i < e <= s.len() {
                Some(e)
            } else {
                None
            },
            None => None,
        }
    } else {
        None
    }
}

/// The numeric tokens of `s` at or after `i`, as `(start, end)` positions, scanning left to
/// right and resuming after each token.
pub open spec fn spec_tokens_from(s: Seq<char>, i: int) -> Seq<(int, int)>
    decreases s.len() - i,
{
    if i < 0 || i >= s.len() {
        seq![]
    } else {
        match spec_token_at(s, i) {
            Some(e) => seq![(i, e)] + spec_tokens_from(s, e),
            None => spec_tokens_from(s, i + 1),
        }
    }
}

/// The numeric tokens of a line, as `(start, end)` positions.
pub open spec fn spec_numeric_tokens(s: Seq<char>) -> Seq<(int, int)> {
    spec_tokens_from(s, 0)
}

/// The texts of the numeric tokens of a line.
pub open spec fn spec_token_texts(s: Seq<char>) -> Seq<Seq<char>> {
    spec_numeric_tokens(s).map_values(|span: (int, int)| s.subrange(span.0, span.1))
}

proof fn lemma_digits_end_bounds(s: Seq<char>, i: int)
    requires
        0 <= i,
    ensures
        i <= digits_end(s, i),
        i <= s.len() ==> digits_end(s, i) <= s.len(),
    decreases s.len() - i,
{
    if 0 <= i < s.len() && spec_is_ascii_digit(s[i]) {
        lemma_digits_end_bounds(s, i + 1);
    }
}

proof fn lemma_token_end_bounds(s: Seq<char>, start: int)
    requires
        0 <= start < s.len(),
    ensures
        spec_token_end(s, start) matches Some(e) ==> start < e <= s.len(),
{
    let body = if spec_is_sign(s[start]) {
        start + 1
    } else {
        start
    };
    if body < s.len() {
        lemma_digits_end_bounds(s, body);
        let int_end = digits_end(s, body);
        if int_end < s.len() && spec_is_decimal_separator(s[int_end]) {
            lemma_digits_end_bounds(s, int_end + 1);
        }
        let frac_end = if int_end < s.len() && spec_is_decimal_separator(s[int_end]) {
            digits_end(s, int_end + 1)
        } else {
            int_end
        };
        if 0 <= frac_end < s.len() && spec_is_exponent_marker(s[frac_end]) {
            let j = if frac_end + 1 < s.len() && spec_is_sign(s[frac_end + 1]) {
                frac_end + 2
            } else {
                frac_end + 1
            };
            lemma_digits_end_bounds(s, j);
        }
    }
}

/// Whether a character may continue an identifier.
pub fn is_word_byte(c: char) -> (result: bool)
    ensures
        result == spec_is_word_char(c),
{
    is_ascii_digit(c) || ('a' <= c && c <= 'z') || ('A' <= c && c <= 'Z') || c == '_'
}

/// Whether a character may open a numeric token.
pub fn is_number_start_byte(c: char) -> (result: bool)
    ensures
        result == spec_is_number_start(c),
{
    is_ascii_digit(c) || c == '+' || c == '-' || c == '.' || c == ','
}

/// Whether the digit at `index` directly follows a sign or a decimal separator.
pub fn is_digit_after_disallowed_prefix(line: &[char], index: usize) -> (result: bool)
    requires
        index < line.len(),
    ensures
        result == spec_digit_after_disallowed_prefix(line@, index as int),
{
    if index == 0 || !is_ascii_digit(line[index]) {
        return false;
    }
    let previous = line[index - 1];
    previous == '+' || previous == '-' || previous == '.' || previous == ','
}

/// The end of the run of digits starting at `index`.
fn skip_digits(line: &[char], index: usize) -> (end: usize)
    requires
        index <= line.len(),
    ensures
        end == digits_end(line@, index as int),
        index <= end <= line.len(),
{
    let mut end = index;
    while end < line.len() && is_ascii_digit(line[end])
        invariant
            index <= end <= line.len(),
            digits_end(line@, end as int) == digits_end(line@, index as int),
        decreases line.len() - end,
    {
        end = end + 1;
    }
    end
}

/// The end of the numeric token that starts at `start`, `None` when no number starts there.
pub fn parse_numeric_token_end(line: &[char], start: usize) -> (end: Option<usize>)
    requires
        start < line.len(),
    ensures
        end matches Some(e) ==> spec_token_end(line@, start as int) == Some(e as int),
        end is None ==> spec_token_end(line@, start as int) is None,
{
    let mut index = start;
    if line[index] == '+' || line[index] == '-' {
        index = index + 1;
        if index >= line.len() {
            return None;
        }
    }
    let integer_start = index;
    index = skip_digits(line, index);
    let has_integer = index > integer_start;

    let mut has_fraction = false;
    if index < line.len() && (line[index] == '.' || line[index] == ',') {
        index = index + 1;
        let fraction_start = index;
        index = skip_digits(line, index);
        has_fraction = index > fraction_start;
    }
    if !has_integer && !has_fraction {
        return None;
    }
    if index < line.len() && (line[index] == 'e' || line[index] == 'E') {
        let exponent_marker_index = index;
        index = index + 1;
        if index < line.len() && (line[index] == '+' || line[index] == '-') {
            index = index + 1;
        }
        let exponent_start = index;
        index = skip_digits(line, index);
        if index == exponent_start {
            index = exponent_marker_index;
        }
    }
    Some(index)
}

/// The numeric tokens of a line, as `(start, end)` positions, left to right.
///
/// Numbers glued to identifiers (`row-1`, `v1.2`, `sample_3`) are not tokens.
pub fn clipboard_numeric_tokens(line: &[char]) -> (tokens: Vec<(usize, usize)>)
    ensures
        tokens@.len() == spec_numeric_tokens(line@).len(),
        forall|k: int|
            0 <= k < tokens@.len() ==> (#[trigger] tokens@[k]).0 as int == spec_numeric_tokens(
                line@,
            )[k].0 && tokens@[k].1 as int == spec_numeric_tokens(line@)[k].1,
{
    let ghost s = line@;
    let mut tokens: Vec<(usize, usize)> = Vec::new();
    let mut index: usize = 0;
    while index < line.len()
        invariant
            index <= line.len(),
            s == line@,
            spec_tokens_from(s, 0).len() == tokens@.len() + spec_tokens_from(s, index as int).len(),
            forall|k: int|
                0 <= k < tokens@.len() ==> (#[trigger] tokens@[k]).0 as int == spec_tokens_from(
                    s,
                    0,
                )[k].0 && tokens@[k].1 as int == spec_tokens_from(s, 0)[k].1,
            forall|k: int|
                0 <= k < spec_tokens_from(s, index as int).len() ==> spec_tokens_from(s, 0)[k
                    + tokens@.len()] == #[trigger] spec_tokens_from(s, index as int)[k],
        decreases line.len() - index,
    {
        proof {
            lemma_token_end_bounds(s, index as int);
        }
        let current = line[index];
        let mut next = index + 1;
        if is_number_start_byte(current) && !is_digit_after_disallowed_prefix(line, index) && !(
        index > 0 && is_word_byte(line[index - 1])) {
            match parse_numeric_token_end(line, index) {
                Some(end) => {
                    if end > index {
                        let ghost before = tokens@;
                        tokens.push((index, end));
                        next = end;
                        proof {
                            assert(spec_tokens_from(s, index as int) == seq![(index as int, end as int)]
                                + spec_tokens_from(s, end as int));
                            assert forall|k: int|
                                0 <= k < spec_tokens_from(s, end as int).len() implies spec_tokens_from(
                                s,
                                0,
                            )[k + tokens@.len()] == #[trigger] spec_tokens_from(s, end as int)[k] by {
                                assert(spec_tokens_from(s, index as int)[k + 1] == spec_tokens_from(
                                    s,
                                    end as int,
                                )[k]);
                            }
                            assert(spec_tokens_from(s, 0)[before.len() as int] == spec_tokens_from(
                                s,
                                index as int,
                            )[0]);
                        }
                    }
                },
                None => {},
            }
        }
        index = next;
    }
    tokens
}

/// The texts of the numeric tokens of a line, left to right.
pub fn numeric_token_texts(line: &[char]) -> (texts: Vec<Vec<char>>)
    ensures
        texts@.len() == spec_token_texts(line@).len(),
        forall|k: int| 0 <= k < texts@.len() ==> (#[trigger] texts@[k])@ == spec_token_texts(line@)[k],
{
    let spans = clipboard_numeric_tokens(line);
    let mut texts: Vec<Vec<char>> = Vec::new();
    let mut k: usize = 0;
    while k < spans.len()
        invariant
            k <= spans.len(),
            spans@.len() == spec_numeric_tokens(line@).len(),
            forall|j: int|
                0 <= j < spans@.len() ==> (#[trigger] spans@[j]).0 as int == spec_numeric_tokens(
                    line@,
                )[j].0 && spans@[j].1 as int == spec_numeric_tokens(line@)[j].1,
            texts@.len() == k,
            forall|j: int| 0 <= j < k ==> (#[trigger] texts@[j])@ == spec_token_texts(line@)[j],
        decreases spans.len() - k,
    {
        let (start, end) = spans[k];
        proof {
            lemma_token_spans_in_bounds(line@, 0);
            assert(spec_numeric_tokens(line@)[k as int] == (start as int, end as int));
        }
        let mut text: Vec<char> = Vec::new();
        let mut i = start;
        while i < end
            invariant
                start <= i <= end <= line.len(),
                text@ == line@.subrange(start as int, i as int),
            decreases end - i,
        {
            text.push(line[i]);
            i = i + 1;
        }
        texts.push(text);
        k = k + 1;
    }
    texts
}

/// A line of `n` characters holds at most `n` numeric tokens.
pub proof fn lemma_tokens_count(s: Seq<char>, i: int)
    requires
        0 <= i <= s.len(),
    ensures
        spec_tokens_from(s, i).len() <= s.len() - i,
        i == 0 ==> spec_token_texts(s).len() <= s.len(),
    decreases s.len() - i,
{
    if i < s.len() {
        match spec_token_at(s, i) {
            Some(e) => lemma_tokens_count(s, e),
            None => lemma_tokens_count(s, i + 1),
        }
    }
}

proof fn lemma_token_spans_in_bounds(s: Seq<char>, i: int)
    requires
        0 <= i,
    ensures
        forall|k: int|
            0 <= k < spec_tokens_from(s, i).len() ==> i <= (#[trigger] spec_tokens_from(s, i)[k]).0
                < spec_tokens_from(s, i)[k].1 <= s.len(),
    decreases s.len() - i,
{
    if i < s.len() {
        if let Some(e) = spec_token_at(s, i) {
            lemma_token_spans_in_bounds(s, e);
            assert forall|k: int|
                0 <= k < spec_tokens_from(s, i).len() implies i <= (#[trigger] spec_tokens_from(
                s,
                i,
            )[k]).0 < spec_tokens_from(s, i)[k].1 <= s.len() by {
                if k > 0 {
                    assert(spec_tokens_from(s, i)[k] == spec_tokens_from(s, e)[k - 1]);
                }
            }
        } else {
            lemma_token_spans_in_bounds(s, i + 1);
            assert(spec_tokens_from(s, i) == spec_tokens_from(s, i + 1));
        }
    }
}

} // verus!
