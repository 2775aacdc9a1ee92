//! Character classes and small text builders shared by the parsers and the message texts.

use vstd::prelude::*;

verus! {

/// The ASCII digit character of a value below ten.
pub open spec fn digit_char(d: nat) -> char {
    if d == 0 {
        '0'
    } else if d == 1 {
        '1'
    } else if d == 2 {
        '2'
    } else if d == 3 {
        '3'
    } else if d == 4 {
        '4'
    } else if d == 5 {
        '5'
    } else if d == 6 {
        '6'
    } else if d == 7 {
        '7'
    } else if d == 8 {
        '8'
    } else {
        '9'
    }
}

/// The decimal rendering of a natural number, most significant digit first, no leading zeros.
pub open spec fn decimal_text(n: nat) -> Seq<char>
    decreases n,
{
    if n < 10 {
        seq![digit_char(n)]
    } else {
        decimal_text(n / 10).push(digit_char(n % 10))
    }
}

/// Whether a character is an ASCII decimal digit.
pub open spec fn spec_is_ascii_digit(c: char) -> bool {
    '0' <= c && c <= '9'
}

/// Whether a character is an ASCII letter or digit.
pub open spec fn spec_is_ascii_alphanumeric(c: char) -> bool {
    spec_is_ascii_digit(c) || ('a' <= c && c <= 'z') || ('A' <= c && c <= 'Z')
}

/// The characters with the Unicode `White_Space` property, which is what `char::is_whitespace`
/// and `str::trim` go by.
pub open spec fn spec_is_whitespace(c: char) -> bool {
    ||| ('\u{9}' <= c && c <= '\u{d}')
    ||| c == ' '
    ||| c == '\u{85}'
    ||| c == '\u{a0}'
    ||| c == '\u{1680}'
    ||| ('\u{2000}' <= c && c <= '\u{200a}')
    ||| c == '\u{2028}'
    ||| c == '\u{2029}'
    ||| c == '\u{202f}'
    ||| c == '\u{205f}'
    ||| c == '\u{3000}'
}

/// Whether a character is an ASCII decimal digit.
pub fn is_ascii_digit(c: char) -> (result: bool)
    ensures
        result == spec_is_ascii_digit(c),
{
    '0' <= c && c <= '9'
}

/// Whether a character is Unicode white space.
pub fn is_whitespace(c: char) -> (result: bool)
    ensures
        result == spec_is_whitespace(c),
{
    ('\u{9}' <= c && c <= '\u{d}') || c == ' ' || c == '\u{85}' || c == '\u{a0}' || c == '\u{1680}'
        || ('\u{2000}' <= c && c <= '\u{200a}') || c == '\u{2028}' || c == '\u{2029}' || c
        == '\u{202f}' || c == '\u{205f}' || c == '\u{3000}'
}

/// Index of the first character at or after `i` that is not white space.
pub open spec fn skip_whitespace_forward(s: Seq<char>, i: int) -> int
    decreases s.len() - i,
{
    if 0 <= i < s.len() && spec_is_whitespace(s[i]) {
        skip_whitespace_forward(s, i + 1)
    } else {
        i
    }
}

/// One past the last character before `end` that is not white space, not below `start`.
pub open spec fn skip_whitespace_backward(s: Seq<char>, start: int, end: int) -> int
    decreases end - start,
{
    if start < end && spec_is_whitespace(s[end - 1]) {
        skip_whitespace_backward(s, start, end - 1)
    } else {
        end
    }
}

/// The text without leading and trailing white space, as `str::trim` gives it.
pub open spec fn spec_trim(s: Seq<char>) -> Seq<char> {
    let start = skip_whitespace_forward(s, 0);
    s.subrange(start, skip_whitespace_backward(s, start, s.len() as int))
}

proof fn lemma_skip_forward_bounds(s: Seq<char>, i: int)
    requires
        0 <= i <= s.len(),
    ensures
        i <= skip_whitespace_forward(s, i) <= s.len(),
    decreases s.len() - i,
{
    if i < s.len() && spec_is_whitespace(s[i]) {
        lemma_skip_forward_bounds(s, i + 1);
    }
}

proof fn lemma_skip_backward_bounds(s: Seq<char>, start: int, end: int)
    requires
        0 <= start <= end <= s.len(),
    ensures
        start <= skip_whitespace_backward(s, start, end) <= end,
    decreases end - start,
{
    if start < end && spec_is_whitespace(s[end - 1]) {
        lemma_skip_backward_bounds(s, start, end - 1);
    }
}

/// The text without leading and trailing white space.
pub fn trim_chars(s: &[char]) -> (trimmed: Vec<char>)
    ensures
        trimmed@ == spec_trim(s@),
{
    let mut start: usize = 0;
    while start < s.len() && is_whitespace(s[start])
        invariant
            start <= s.len(),
            skip_whitespace_forward(s@, start as int) == skip_whitespace_forward(s@, 0),
        decreases s.len() - start,
    {
        start = start + 1;
    }
    let mut end: usize = s.len();
    while start < end && is_whitespace(s[end - 1])
        invariant
            start <= end <= s.len(),
            skip_whitespace_backward(s@, start as int, end as int) == skip_whitespace_backward(
                s@,
                start as int,
                s.len() as int,
            ),
        decreases end - start,
    {
        end = end - 1;
    }
    let mut trimmed: Vec<char> = Vec::new();
    let mut k: usize = start;
    while k < end
        invariant
            start <= k <= end <= s.len(),
            trimmed@ == s@.subrange(start as int, k as int),
        decreases end - k,
    {
        trimmed.push(s[k]);
        k = k + 1;
    }
    trimmed
}

/// The string of one decimal digit.
fn digit_str(d: usize) -> (text: &'static str)
    requires
        d < 10,
    ensures
        text@ == seq![digit_char(d as nat)],
{
    proof {
        reveal_strlit("0");
        reveal_strlit("1");
        reveal_strlit("2");
        reveal_strlit("3");
        reveal_strlit("4");
        reveal_strlit("5");
        reveal_strlit("6");
        reveal_strlit("7");
        reveal_strlit("8");
        reveal_strlit("9");
    }
    if d == 0 {
        "0"
    } else if d == 1 {
        "1"
    } else if d == 2 {
        "2"
    } else if d == 3 {
        "3"
    } else if d == 4 {
        "4"
    } else if d == 5 {
        "5"
    } else if d == 6 {
        "6"
    } else if d == 7 {
        "7"
    } else if d == 8 {
        "8"
    } else {
        "9"
    }
}

/// Appends the decimal rendering of `n`.
pub fn push_decimal(text: &mut String, n: usize)
    ensures
        final(text)@ == old(text)@ + decimal_text(n as nat),
    decreases n,
{
    if n >= 10 {
        push_decimal(text, n / 10);
    }
    text.append(digit_str(n % 10));
    proof {
        assert(old(text)@ + decimal_text(n as nat) =~= old(text)@ + (if n >= 10 {
            decimal_text((n / 10) as nat)
        } else {
            seq![]
        }) + seq![digit_char((n % 10) as nat)]);
    }
}

/// Appends a character sequence.
pub fn push_chars(text: &mut String, chars: &[char])
    ensures
        final(text)@ == old(text)@ + chars@,
{
    let mut k: usize = 0;
    while k < chars.len()
        invariant
            k <= chars.len(),
            text@ == old(text)@ + chars@.subrange(0, k as int),
        decreases chars.len() - k,
    {
        push_char(text, chars[k]);
        k = k + 1;
        proof {
            assert(chars@.subrange(0, k as int) =~= chars@.subrange(0, k - 1).push(chars@[k - 1]));
        }
    }
    proof {
        assert(chars@.subrange(0, chars.len() as int) =~= chars@);
    }
}

/// The characters of a string slice.
pub fn str_to_chars(text: &str) -> (chars: Vec<char>)
    ensures
        chars@ == text@,
{
    broadcast use vstd::string::axiom_spec_iter;

    let mut chars: Vec<char> = Vec::new();
    for c in it: text.chars()
        invariant
            chars@ == it.seq().take(it.index() as int),
            it.seq() == text@,
    {
        chars.push(c);
    }
    chars
}

/// Appends one character: `String::push`.
#[verifier::external_body]
pub(crate) fn push_char(text: &mut String, c: char)
    ensures
        final(text)@ == old(text)@.push(c),
{
    text.push(c);
}

} // verus!
