//! Rows of point data: a row yields a point when it holds exactly two numeric tokens, is
//! skipped when it holds none, and is rejected otherwise. Scans over pasted text, CSV
//! records and worksheet rows stop at the first rejected row.

use vstd::prelude::*;
use crate::points_text::{numeric_token_texts, spec_token_texts};
use crate::text::{decimal_text, is_whitespace, push_decimal, spec_is_whitespace, spec_trim, trim_chars};

verus! {

/// Where the rows of a scan came from; it names the source in the "no points" message.
#[derive(Debug, Clone, Copy, PartialEq, Eq, Structural)]
pub enum PointsSource {
    Clipboard,
    CsvFile,
    ExcelWorksheet,
}

/// Why a block of point data was rejected.
#[derive(Debug, PartialEq, Eq)]
pub enum PointsTextError {
    /// A row held one or three and more numeric tokens.
    WrongNumericCount { line: usize, count: usize },
    /// An editor line held only separators.
    NoValuesAfterSplit { line: usize },
    /// An editor line held a single value.
    MissingSecondValue { line: usize },
    /// An editor line held more than two values.
    TooManyValues { line: usize },
    /// The CSV reader failed on a record.
    CsvRead { line: usize, detail: String },
    /// No row yielded a point.
    NoPoints { source: PointsSource },
}

/// The two raw numeric texts of a point.
#[derive(Debug, PartialEq, Eq)]
pub struct PointTokens {
    pub x: Vec<char>,
    pub y: Vec<char>,
}

/// A point row of a scan: its 1-based line number and its two raw numeric texts.
#[derive(Debug, PartialEq, Eq)]
pub struct PointRow {
    pub line: usize,
    pub x: Vec<char>,
    pub y: Vec<char>,
}

/// The outcome of a scan: the point rows before the first rejected row, and the rejection.
///
/// `error` is the first rejected row's error, or `NoPoints` when no row was rejected and
/// none yielded a point, or `None`.
#[derive(Debug, PartialEq, Eq)]
pub struct RowsScan {
    pub rows: Vec<PointRow>,
    pub error: Option<PointsTextError>,
}

/// What one row amounts to.
pub enum RowOutcome {
    Skip,
    Pair(Seq<char>, Seq<char>),
    Miscount(nat),
}

/// The character contents of a list of texts.
pub open spec fn char_views(texts: Seq<Vec<char>>) -> Seq<Seq<char>> {
    texts.map_values(|text: Vec<char>| text@)
}

/// All numeric tokens of a row, fragment after fragment.
pub open spec fn spec_row_tokens(fragments: Seq<Seq<char>>) -> Seq<Seq<char>>
    decreases fragments.len(),
{
    if fragments.len() == 0 {
        seq![]
    } else {
        spec_row_tokens(fragments.drop_last()) + spec_token_texts(fragments.last())
    }
}

/// A row with no numeric token is skipped, one with two is a point, any other is rejected.
pub open spec fn spec_row_outcome(fragments: Seq<Seq<char>>) -> RowOutcome {
    let tokens = spec_row_tokens(fragments);
    if tokens.len() == 0 {
        RowOutcome::Skip
    } else if tokens.len() == 2 {
        RowOutcome::Pair(tokens[0], tokens[1])
    } else {
        RowOutcome::Miscount(tokens.len())
    }
}

/// The number of the row at offset `offset` from a row numbered `first_line`, held at
/// `usize::MAX` when it does not fit.
pub open spec fn capped_line(first_line: nat, offset: nat) -> nat {
    if first_line + offset <= usize::MAX {
        first_line + offset
    } else {
        usize::MAX as nat
    }
}

/// `count` held at `usize::MAX` when it does not fit.
pub open spec fn capped_count(count: nat) -> nat {
    if count <= usize::MAX {
        count
    } else {
        usize::MAX as nat
    }
}

/// Scans row outcomes numbered from `first_line`: the point rows as `(line, x, y)` before
/// the first rejected row, and that row's `(line, token count)`.
pub open spec fn spec_scan(outcomes: Seq<RowOutcome>, first_line: nat) -> (
    Seq<(nat, Seq<char>, Seq<char>)>,
    Option<(nat, nat)>,
)
    decreases outcomes.len(),
{
    if outcomes.len() == 0 {
        (seq![], None)
    } else {
        let previous = spec_scan(outcomes.drop_last(), first_line);
        let line = capped_line(first_line, (outcomes.len() - 1) as nat);
        if previous.1.is_some() {
            previous
        } else {
            match outcomes.last() {
                RowOutcome::Skip => previous,
                RowOutcome::Pair(x, y) => (previous.0.push((line, x, y)), None),
                RowOutcome::Miscount(count) => (previous.0, Some((line, capped_count(count)))),
            }
        }
    }
}

/// The error a scan reports: the first rejected row, else `NoPoints` when nothing was found.
pub open spec fn spec_scan_error(
    scan: (Seq<(nat, Seq<char>, Seq<char>)>, Option<(nat, nat)>),
    error: Option<PointsTextError>,
    source: PointsSource,
) -> bool {
    match scan.1 {
        Some((line, count)) => error matches Some(PointsTextError::WrongNumericCount { line: l, count: c }) && l == line && c == count,
        None => if scan.0.len() == 0 {
            error == Some(PointsTextError::NoPoints { source })
        } else {
            error is None
        },
    }
}

/// Whether the point rows of a scan result are the ones of a spec scan.
pub open spec fn rows_match(rows: Seq<PointRow>, expected: Seq<(nat, Seq<char>, Seq<char>)>) -> bool {
    &&& rows.len() == expected.len()
    &&& forall|k: int|
        0 <= k < rows.len() ==> (#[trigger] rows[k]).line == expected[k].0 && rows[k].x@
            == expected[k].1 && rows[k].y@ == expected[k].2
}

/// A copy of a character sequence.
fn copy_chars(chars: &[char]) -> (copy: Vec<char>)
    ensures
        copy@ == chars@,
{
    let mut copy: Vec<char> = Vec::new();
    let mut k: usize = 0;
    while k < chars.len()
        invariant
            k <= chars.len(),
            copy@ == chars@.subrange(0, k as int),
        decreases chars.len() - k,
    {
        copy.push(chars[k]);
        k = k + 1;
    }
    copy
}

/// Classifies one row given as fragments (cells, fields or a whole line): `Ok(None)` for no
/// numeric token, the two tokens for exactly two, and `WrongNumericCount` otherwise.
///
/// A count beyond `usize::MAX` is reported as `usize::MAX`.
pub fn parse_point_from_clipboard_like_fragments(line_number: usize, fragments: &Vec<Vec<char>>) -> (result: Result<Option<PointTokens>, PointsTextError>)
    ensures
        match spec_row_outcome(char_views(fragments@)) {
            RowOutcome::Skip => result matches Ok(None),
            RowOutcome::Pair(x, y) => result matches Ok(Some(p)) && p.x@ == x && p.y@ == y,
            RowOutcome::Miscount(count) => result matches Err(
                PointsTextError::WrongNumericCount { line: l, count: c },
            ) && l == line_number && c == capped_count(count),
        },
{
    let ghost views = char_views(fragments@);
    let mut count: usize = 0;
    let mut first: Vec<char> = Vec::new();
    let mut second: Vec<char> = Vec::new();
    let mut i: usize = 0;
    while i < fragments.len()
        invariant
            i <= fragments.len(),
            views == char_views(fragments@),
            count == capped_count(spec_row_tokens(views.take(i as int)).len()),
            count >= 1 ==> first@ == spec_row_tokens(views.take(i as int))[0],
            count >= 2 ==> second@ == spec_row_tokens(views.take(i as int))[1],
        decreases fragments.len() - i,
    {
        let texts = numeric_token_texts(fragments[i].as_slice());
        let ghost before = spec_row_tokens(views.take(i as int));
        proof {
            assert(views.take(i + 1).drop_last() =~= views.take(i as int));
            assert(views.take(i + 1).last() == fragments@[i as int]@);
        }
        let mut j: usize = 0;
        while j < texts.len()
            invariant
                j <= texts.len(),
                texts@.len() == spec_token_texts(fragments@[i as int]@).len(),
                forall|k: int|
                    0 <= k < texts@.len() ==> (#[trigger] texts@[k])@ == spec_token_texts(
                        fragments@[i as int]@,
                    )[k],
                spec_row_tokens(views.take(i + 1)) == before + spec_token_texts(
                    fragments@[i as int]@,
                ),
                count == capped_count((before.len() + j) as nat),
                count >= 1 ==> first@ == (before + spec_token_texts(fragments@[i as int]@))[0],
                count >= 2 ==> second@ == (before + spec_token_texts(fragments@[i as int]@))[1],
            decreases texts.len() - j,
        {
            if count < usize::MAX {
                count = count + 1;
            }
            if count == 1 {
                first = copy_chars(texts[j].as_slice());
            } else if count == 2 {
                second = copy_chars(texts[j].as_slice());
            }
            j = j + 1;
        }
        i = i + 1;
    }
    proof {
        assert(views.take(fragments.len() as int) =~= views);
    }
    if count == 0 {
        Ok(None)
    } else if count == 2 {
        Ok(Some(PointTokens { x: first, y: second }))
    } else {
        Err(PointsTextError::WrongNumericCount { line: line_number, count })
    }
}


// ---------------------------------------------------------------------------------------
// Scans
// ---------------------------------------------------------------------------------------

/// What each row of fragment texts amounts to.
pub open spec fn spec_view_outcomes(rows: Seq<Seq<Seq<char>>>) -> Seq<RowOutcome> {
    rows.map_values(|row: Seq<Seq<char>>| spec_row_outcome(row))
}

/// The character content of rows of fragments.
pub open spec fn row_views(rows: Seq<Vec<Vec<char>>>) -> Seq<Seq<Seq<char>>> {
    rows.map_values(|row: Vec<Vec<char>>| char_views(row@))
}

/// What each row of fragments amounts to.
pub open spec fn spec_fragment_outcomes(rows: Seq<Vec<Vec<char>>>) -> Seq<RowOutcome> {
    spec_view_outcomes(row_views(rows))
}

/// Whether a scan result matches the spec scan of some row outcomes.
pub open spec fn scan_matches(
    scan: RowsScan,
    outcomes: Seq<RowOutcome>,
    first_line: nat,
    source: PointsSource,
) -> bool {
    &&& rows_match(scan.rows@, spec_scan(outcomes, first_line).0)
    &&& spec_scan_error(spec_scan(outcomes, first_line), scan.error, source)
}

proof fn lemma_scan_step(outcomes: Seq<RowOutcome>, n: int, first_line: nat)
    requires
        0 <= n < outcomes.len(),
    ensures
        spec_scan(outcomes.take(n + 1), first_line) == ({
            let previous = spec_scan(outcomes.take(n), first_line);
            let line = capped_line(first_line, n as nat);
            if previous.1.is_some() {
                previous
            } else {
                match outcomes[n] {
                    RowOutcome::Skip => previous,
                    RowOutcome::Pair(x, y) => (previous.0.push((line, x, y)), None),
                    RowOutcome::Miscount(count) => (previous.0, Some((line, capped_count(count)))),
                }
            }
        }),
{
    assert(outcomes.take(n + 1).drop_last() =~= outcomes.take(n));
}

/// Appends the outcome of row `n` (numbered `line`) to a running scan.
fn record_outcome(
    rows: &mut Vec<PointRow>,
    failure: &mut Option<(usize, usize)>,
    line: usize,
    outcome: Result<Option<PointTokens>, PointsTextError>,
    Ghost(outcomes): Ghost<Seq<RowOutcome>>,
    Ghost(n): Ghost<int>,
    Ghost(first_line): Ghost<nat>,
)
    requires
        0 <= n < outcomes.len(),
        line == capped_line(first_line, n as nat),
        rows_match(old(rows)@, spec_scan(outcomes.take(n), first_line).0),
        match *old(failure) {
            Some((l, c)) => spec_scan(outcomes.take(n), first_line).1 == Some((l as nat, c as nat)),
            None => spec_scan(outcomes.take(n), first_line).1 is None,
        },
        match outcomes[n] {
            RowOutcome::Skip => outcome matches Ok(None),
            RowOutcome::Pair(x, y) => outcome matches Ok(Some(p)) && p.x@ == x && p.y@ == y,
            RowOutcome::Miscount(count) => outcome matches Err(
                PointsTextError::WrongNumericCount { line: l, count: c },
            ) && l == line && c == capped_count(count),
        },
    ensures
        rows_match(final(rows)@, spec_scan(outcomes.take(n + 1), first_line).0),
        match *final(failure) {
            Some((l, c)) => spec_scan(outcomes.take(n + 1), first_line).1 == Some((l as nat, c as nat)),
            None => spec_scan(outcomes.take(n + 1), first_line).1 is None,
        },
{
    proof {
        lemma_scan_step(outcomes, n, first_line);
    }
    if failure.is_some() {
        return;
    }
    match outcome {
        Ok(None) => {},
        Ok(Some(tokens)) => {
            let ghost before = rows@;
            rows.push(PointRow { line, x: tokens.x, y: tokens.y });
            proof {
                let expected = spec_scan(outcomes.take(n + 1), first_line).0;
                assert forall|k: int| 0 <= k < rows@.len() implies (#[trigger] rows@[k]).line == expected[k].0
                    && rows@[k].x@ == expected[k].1 && rows@[k].y@ == expected[k].2 by {
                    if k < before.len() {
                        assert(rows@[k] == before[k]);
                    }
                }
            }
        },
        Err(PointsTextError::WrongNumericCount { line: l, count }) => {
            *failure = Some((l, count));
        },
        Err(_) => {},
    }
}

/// Turns a finished running scan into its result.
fn finish_scan(
    rows: Vec<PointRow>,
    failure: Option<(usize, usize)>,
    source: PointsSource,
    Ghost(outcomes): Ghost<Seq<RowOutcome>>,
    Ghost(first_line): Ghost<nat>,
) -> (scan: RowsScan)
    requires
        rows_match(rows@, spec_scan(outcomes, first_line).0),
        match failure {
            Some((l, c)) => spec_scan(outcomes, first_line).1 == Some((l as nat, c as nat)),
            None => spec_scan(outcomes, first_line).1 is None,
        },
    ensures
        scan_matches(scan, outcomes, first_line, source),
{
    let error = match failure {
        Some((line, count)) => Some(PointsTextError::WrongNumericCount { line, count }),
        None => if rows.len() == 0 {
            Some(PointsTextError::NoPoints { source })
        } else {
            None
        },
    };
    RowsScan { rows, error }
}

/// Scans rows given as fragments (worksheet cells or CSV fields), numbered from `first_line`;
/// a row number beyond `usize::MAX` is reported as `usize::MAX`.
pub fn scan_fragment_rows(first_line: usize, rows: &Vec<Vec<Vec<char>>>, source: PointsSource) -> (scan: RowsScan)
    ensures
        scan_matches(scan, spec_fragment_outcomes(rows@), first_line as nat, source),
{
    let ghost outcomes = spec_fragment_outcomes(rows@);
    let mut found: Vec<PointRow> = Vec::new();
    let mut failure: Option<(usize, usize)> = None;
    let mut n: usize = 0;
    while n < rows.len()
        invariant
            n <= rows.len(),
            outcomes == spec_fragment_outcomes(rows@),
            rows_match(found@, spec_scan(outcomes.take(n as int), first_line as nat).0),
            match failure {
                Some((l, c)) => spec_scan(outcomes.take(n as int), first_line as nat).1 == Some(
                    (l as nat, c as nat),
                ),
                None => spec_scan(outcomes.take(n as int), first_line as nat).1 is None,
            },
        decreases rows.len() - n,
    {
        let line = if first_line <= usize::MAX - n {
            first_line + n
        } else {
            usize::MAX
        };
        let outcome = parse_point_from_clipboard_like_fragments(line, &rows[n]);
        record_outcome(
            &mut found,
            &mut failure,
            line,
            outcome,
            Ghost(outcomes),
            Ghost(n as int),
            Ghost(first_line as nat),
        );
        n = n + 1;
    }
    proof {
        assert(outcomes.take(rows.len() as int) =~= outcomes);
    }
    finish_scan(found, failure, source, Ghost(outcomes), Ghost(first_line as nat))
}

// ---------------------------------------------------------------------------------------
// Lines of text
// ---------------------------------------------------------------------------------------

/// The end of the line that starts at `i`: the next `'\n'` or the end of the text.
pub open spec fn line_end(s: Seq<char>, i: int) -> int
    decreases s.len() - i,
{
    if 0 <= i < s.len() && s[i] != '\n' {
        line_end(s, i + 1)
    } else {
        i
    }
}

/// The lines of `s` from position `i`, split at `'\n'`; a final `'\n'` opens no further line.
pub open spec fn lines_from(s: Seq<char>, i: int) -> Seq<Seq<char>>
    decreases s.len() - i,
{
    if i < 0 || i >= s.len() {
        seq![]
    } else {
        let e = line_end(s, i);
        proof {
            lemma_line_end_bounds(s, i);
        }
        if e < s.len() {
            seq![s.subrange(i, e)] + lines_from(s, e + 1)
        } else {
            seq![s.subrange(i, e)]
        }
    }
}

/// The lines of a text as `str::lines` gives them, up to a `'\r'` before each `'\n'`, which
/// stays on the line (every consumer trims it away as white space).
pub open spec fn spec_lines(s: Seq<char>) -> Seq<Seq<char>> {
    lines_from(s, 0)
}

pub proof fn lemma_line_end_bounds(s: Seq<char>, i: int)
    requires
        0 <= i <= s.len(),
    ensures
        i <= line_end(s, i) <= s.len(),
        line_end(s, i) < s.len() ==> s[line_end(s, i)] == '\n',
    decreases s.len() - i,
{
    if i < s.len() && s[i] != '\n' {
        lemma_line_end_bounds(s, i + 1);
    }
}

proof fn lemma_lines_count(s: Seq<char>, i: int)
    requires
        0 <= i <= s.len(),
    ensures
        lines_from(s, i).len() <= s.len() - i,
    decreases s.len() - i,
{
    if i < s.len() {
        lemma_line_end_bounds(s, i);
        let e = line_end(s, i);
        if e < s.len() {
            lemma_lines_count(s, e + 1);
        }
    }
}

/// The line that starts at `start`, and the position where it ends.
fn take_line(text: &[char], start: usize) -> (result: (Vec<char>, usize))
    requires
        start < text.len(),
    ensures
        result.1 == line_end(text@, start as int),
        result.0@ == text@.subrange(start as int, result.1 as int),
        start <= result.1 <= text.len(),
{
    let mut end = start;
    let mut line: Vec<char> = Vec::new();
    while end < text.len() && text[end] != '\n'
        invariant
            start <= end <= text.len(),
            line_end(text@, end as int) == line_end(text@, start as int),
            line@ == text@.subrange(start as int, end as int),
        decreases text.len() - end,
    {
        line.push(text[end]);
        end = end + 1;
    }
    (line, end)
}

proof fn lemma_row_tokens_single(fragment: Seq<char>)
    ensures
        spec_row_tokens(seq![fragment]) == spec_token_texts(fragment),
        spec_row_tokens(seq![fragment]).len() <= fragment.len(),
{
    assert(seq![fragment].drop_last() =~= Seq::<Seq<char>>::empty());
    assert(spec_row_tokens(Seq::<Seq<char>>::empty()) =~= Seq::<Seq<char>>::empty());
    assert(spec_row_tokens(seq![fragment]) =~= spec_token_texts(fragment));
    crate::points_text::lemma_tokens_count(fragment, 0);
}

/// What each line of pasted text amounts to: its trimmed text taken as one fragment.
pub open spec fn spec_clipboard_outcomes(text: Seq<char>) -> Seq<RowOutcome> {
    spec_lines(text).map_values(|line: Seq<char>| spec_row_outcome(seq![spec_trim(line)]))
}

/// Scans pasted text line by line (lines numbered from 1): lines without numbers are
/// skipped, lines with exactly two numbers are points, and the first other line rejects.
pub fn parse_points_from_clipboard_text(text: &[char]) -> (scan: RowsScan)
    ensures
        scan_matches(scan, spec_clipboard_outcomes(text@), 1, PointsSource::Clipboard),
{
    let ghost s = text@;
    let ghost outcomes = spec_clipboard_outcomes(s);
    let mut found: Vec<PointRow> = Vec::new();
    let mut failure: Option<(usize, usize)> = None;
    let mut position: usize = 0;
    let mut n: usize = 0;
    proof {
        lemma_lines_count(s, 0);
    }
    while position < text.len()
        invariant
            s == text@,
            outcomes == spec_clipboard_outcomes(s),
            n <= position <= text.len(),
            n + lines_from(s, position as int).len() == spec_lines(s).len(),
            forall|k: int|
                0 <= k < lines_from(s, position as int).len() ==> spec_lines(s)[n + k]
                    == #[trigger] lines_from(s, position as int)[k],
            rows_match(found@, spec_scan(outcomes.take(n as int), 1).0),
            match failure {
                Some((l, c)) => spec_scan(outcomes.take(n as int), 1).1 == Some((l as nat, c as nat)),
                None => spec_scan(outcomes.take(n as int), 1).1 is None,
            },
        decreases text.len() - position,
    {
        let (line, end) = take_line(text, position);
        proof {
            lemma_line_end_bounds(s, position as int);
            assert(lines_from(s, position as int)[0] == line@);
            assert(spec_lines(s)[n as int] == line@);
        }
        let trimmed = trim_chars(line.as_slice());
        let fragments = vec![trimmed];
        proof {
            assert(char_views(fragments@) =~= seq![spec_trim(line@)]);
            lemma_row_tokens_single(spec_trim(line@));
        }
        let outcome = parse_point_from_clipboard_like_fragments(n + 1, &fragments);
        record_outcome(&mut found, &mut failure, n + 1, outcome, Ghost(outcomes), Ghost(n as int), Ghost(1));
        proof {
            if end < text.len() {
                assert forall|k: int| 0 <= k < lines_from(s, end + 1).len() implies spec_lines(s)[n + 1 + k]
                    == #[trigger] lines_from(s, end + 1)[k] by {
                    assert(lines_from(s, position as int)[k + 1] == lines_from(s, end + 1)[k]);
                }
            }
        }
        n = n + 1;
        position = if end < text.len() {
            end + 1
        } else {
            end
        };
    }
    proof {
        assert(outcomes.take(n as int) =~= outcomes);
    }
    finish_scan(found, failure, PointsSource::Clipboard, Ghost(outcomes), Ghost(1))
}

// ---------------------------------------------------------------------------------------
// The point editor's text format: `x y` per line, separated by white space or `;`
// ---------------------------------------------------------------------------------------

/// A field separator of the editor format: white space or `;`.
pub open spec fn spec_is_field_separator(c: char) -> bool {
    spec_is_whitespace(c) || c == ';'
}

/// The end of the field that starts at `i`.
pub open spec fn field_end(s: Seq<char>, i: int) -> int
    decreases s.len() - i,
{
    if 0 <= i < s.len() && !spec_is_field_separator(s[i]) {
        field_end(s, i + 1)
    } else {
        i
    }
}

pub proof fn lemma_field_end_bounds(s: Seq<char>, i: int)
    requires
        0 <= i <= s.len(),
    ensures
        i <= field_end(s, i) <= s.len(),
        i < s.len() && !spec_is_field_separator(s[i]) ==> i < field_end(s, i),
    decreases s.len() - i,
{
    if i < s.len() && !spec_is_field_separator(s[i]) {
        lemma_field_end_bounds(s, i + 1);
    }
}

/// The non-empty fields of `s` from position `i` on.
pub open spec fn fields_from(s: Seq<char>, i: int) -> Seq<Seq<char>>
    decreases s.len() - i,
{
    if i < 0 || i >= s.len() {
        seq![]
    } else if spec_is_field_separator(s[i]) {
        fields_from(s, i + 1)
    } else {
        let e = field_end(s, i);
        proof {
            lemma_field_end_bounds(s, i);
        }
        seq![s.subrange(i, e)] + fields_from(s, e)
    }
}

/// The non-empty fields of a line split at white space and `;`.
pub open spec fn spec_fields(s: Seq<char>) -> Seq<Seq<char>> {
    fields_from(s, 0)
}

/// Whether `result` is what the editor format makes of line `line` with text `raw`.
pub open spec fn editor_line_outcome(
    raw: Seq<char>,
    line: nat,
    result: Result<Option<PointTokens>, PointsTextError>,
) -> bool {
    let trimmed = spec_trim(raw);
    let fields = spec_fields(trimmed);
    if trimmed.len() == 0 {
        result matches Ok(None)
    } else if fields.len() == 0 {
        result matches Err(PointsTextError::NoValuesAfterSplit { line: l }) && l == line
    } else if fields.len() == 1 {
        result matches Err(PointsTextError::MissingSecondValue { line: l }) && l == line
    } else if fields.len() == 2 {
        result matches Ok(Some(p)) && p.x@ == fields[0] && p.y@ == fields[1]
    } else {
        result matches Err(PointsTextError::TooManyValues { line: l }) && l == line
    }
}

/// The non-empty fields of a line.
fn split_fields(s: &[char]) -> (fields: Vec<Vec<char>>)
    ensures
        fields@.len() == spec_fields(s@).len(),
        forall|k: int| 0 <= k < fields@.len() ==> (#[trigger] fields@[k])@ == spec_fields(s@)[k],
{
    let mut fields: Vec<Vec<char>> = Vec::new();
    let mut i: usize = 0;
    while i < s.len()
        invariant
            i <= s.len(),
            fields@.len() + fields_from(s@, i as int).len() == spec_fields(s@).len(),
            forall|k: int| 0 <= k < fields@.len() ==> (#[trigger] fields@[k])@ == spec_fields(s@)[k],
            forall|k: int|
                0 <= k < fields_from(s@, i as int).len() ==> spec_fields(s@)[fields@.len() + k]
                    == #[trigger] fields_from(s@, i as int)[k],
        decreases s.len() - i,
    {
        if is_whitespace(s[i]) || s[i] == ';' {
            i = i + 1;
        } else {
            let start = i;
            let mut field: Vec<char> = Vec::new();
            while i < s.len() && !(is_whitespace(s[i]) || s[i] == ';')
                invariant
                    start <= i <= s.len(),
                    field_end(s@, i as int) == field_end(s@, start as int),
                    field@ == s@.subrange(start as int, i as int),
                decreases s.len() - i,
            {
                field.push(s[i]);
                i = i + 1;
            }
            proof {
                lemma_field_end_bounds(s@, start as int);
                assert(fields_from(s@, start as int)[0] == field@);
                assert forall|k: int| 0 <= k < fields_from(s@, i as int).len() implies spec_fields(
                    s@,
                )[fields@.len() + 1 + k] == #[trigger] fields_from(s@, i as int)[k] by {
                    assert(fields_from(s@, start as int)[k + 1] == fields_from(s@, i as int)[k]);
                }
            }
            fields.push(field);
        }
    }
    fields
}

/// Parses one line of the editor format: an empty line is skipped, exactly two fields make
/// a point, and any other line is rejected.
pub fn parse_point_line(line_number: usize, raw_line: &[char]) -> (result: Result<Option<PointTokens>, PointsTextError>)
    ensures
        editor_line_outcome(raw_line@, line_number as nat, result),
{
    let trimmed = trim_chars(raw_line);
    if trimmed.len() == 0 {
        return Ok(None);
    }
    let mut fields = split_fields(trimmed.as_slice());
    if fields.len() == 0 {
        Err(PointsTextError::NoValuesAfterSplit { line: line_number })
    } else if fields.len() == 1 {
        Err(PointsTextError::MissingSecondValue { line: line_number })
    } else if fields.len() == 2 {
        let ghost expected = spec_fields(trimmed@);
        let y = fields.pop().unwrap();
        let x = fields.pop().unwrap();
        proof {
            assert(x@ == expected[0]);
            assert(y@ == expected[1]);
        }
        Ok(Some(PointTokens { x, y }))
    } else {
        Err(PointsTextError::TooManyValues { line: line_number })
    }
}

/// One line of editor text and what it amounts to.
#[derive(Debug, PartialEq, Eq)]
pub struct EditorLine {
    pub line: usize,
    pub outcome: Result<Option<PointTokens>, PointsTextError>,
}

/// Reads every line of editor text (numbered from 1), keeping going past rejected lines so
/// that the points of the other lines can still be shown.
pub fn parse_points_text_lines(text: &[char]) -> (lines: Vec<EditorLine>)
    ensures
        lines@.len() == spec_lines(text@).len(),
        forall|k: int|
            0 <= k < lines@.len() ==> (#[trigger] lines@[k]).line == k + 1 && editor_line_outcome(
                spec_lines(text@)[k],
                (k + 1) as nat,
                lines@[k].outcome,
            ),
{
    let ghost s = text@;
    let mut lines: Vec<EditorLine> = Vec::new();
    let mut position: usize = 0;
    proof {
        lemma_lines_count(s, 0);
    }
    while position < text.len()
        invariant
            s == text@,
            lines@.len() <= position <= text.len(),
            lines@.len() + lines_from(s, position as int).len() == spec_lines(s).len(),
            forall|k: int|
                0 <= k < lines_from(s, position as int).len() ==> spec_lines(s)[lines@.len() + k]
                    == #[trigger] lines_from(s, position as int)[k],
            forall|k: int|
                0 <= k < lines@.len() ==> (#[trigger] lines@[k]).line == k + 1
                    && editor_line_outcome(spec_lines(s)[k], (k + 1) as nat, lines@[k].outcome),
        decreases text.len() - position,
    {
        let (line, end) = take_line(text, position);
        proof {
            lemma_line_end_bounds(s, position as int);
            assert(lines_from(s, position as int)[0] == line@);
        }
        let number = lines.len() + 1;
        let outcome = parse_point_line(number, line.as_slice());
        proof {
            if end < text.len() {
                assert forall|k: int| 0 <= k < lines_from(s, end + 1).len() implies spec_lines(s)[lines@.len() + 1 + k]
                    == #[trigger] lines_from(s, end + 1)[k] by {
                    assert(lines_from(s, position as int)[k + 1] == lines_from(s, end + 1)[k]);
                }
            }
        }
        lines.push(EditorLine { line: number, outcome });
        position = if end < text.len() {
            end + 1
        } else {
            end
        };
    }
    lines
}

/// The text handed to the number parser: trimmed, and with every `,` read as the decimal
/// point when the text has a `,` and no `.`. `None` for an empty field.
pub open spec fn spec_normalized_decimal(raw: Seq<char>) -> Option<Seq<char>> {
    let trimmed = spec_trim(raw);
    if trimmed.len() == 0 {
        None
    } else if trimmed.contains(',') && !trimmed.contains('.') {
        Some(trimmed.map_values(|c: char| if c == ',' { '.' } else { c }))
    } else {
        Some(trimmed)
    }
}

/// Prepares a field for number parsing: trims it and reads a lone decimal comma as a point.
/// `None` when the field is empty.
pub fn normalize_decimal_comma(raw: &[char]) -> (normalized: Option<Vec<char>>)
    ensures
        normalized matches Some(text) ==> spec_normalized_decimal(raw@) == Some(text@),
        normalized is None ==> spec_normalized_decimal(raw@) is None,
{
    let trimmed = trim_chars(raw);
    if trimmed.len() == 0 {
        return None;
    }
    let mut has_comma = false;
    let mut has_dot = false;
    let mut k: usize = 0;
    while k < trimmed.len()
        invariant
            k <= trimmed.len(),
            has_comma == trimmed@.subrange(0, k as int).contains(','),
            has_dot == trimmed@.subrange(0, k as int).contains('.'),
        decreases trimmed.len() - k,
    {
        proof {
            let next = trimmed@.subrange(0, k + 1);
            assert(next =~= trimmed@.subrange(0, k as int).push(trimmed@[k as int]));
            if next.contains(',') && !trimmed@.subrange(0, k as int).contains(',') {
                let w = choose|w: int| 0 <= w < next.len() && next[w] == ',';
                assert(w == k);
            }
            if next.contains('.') && !trimmed@.subrange(0, k as int).contains('.') {
                let w = choose|w: int| 0 <= w < next.len() && next[w] == '.';
                assert(w == k);
            }
            if trimmed@[k as int] == ',' {
                assert(next[k as int] == ',');
            }
            if trimmed@[k as int] == '.' {
                assert(next[k as int] == '.');
            }
            if trimmed@.subrange(0, k as int).contains(',') {
                let w = choose|w: int| 0 <= w < k && trimmed@.subrange(0, k as int)[w] == ',';
                assert(next[w] == ',');
            }
            if trimmed@.subrange(0, k as int).contains('.') {
                let w = choose|w: int| 0 <= w < k && trimmed@.subrange(0, k as int)[w] == '.';
                assert(next[w] == '.');
            }
        }
        if trimmed[k] == ',' {
            has_comma = true;
        }
        if trimmed[k] == '.' {
            has_dot = true;
        }
        k = k + 1;
    }
    proof {
        assert(trimmed@.subrange(0, trimmed@.len() as int) =~= trimmed@);
    }
    if !(has_comma && !has_dot) {
        return Some(trimmed);
    }
    let mut replaced: Vec<char> = Vec::new();
    let mut i: usize = 0;
    while i < trimmed.len()
        invariant
            i <= trimmed.len(),
            replaced@ =~= trimmed@.subrange(0, i as int).map_values(
                |c: char|
                    if c == ',' {
                        '.'
                    } else {
                        c
                    },
            ),
        decreases trimmed.len() - i,
    {
        let c = trimmed[i];
        replaced.push(if c == ',' { '.' } else { c });
        i = i + 1;
    }
    Some(replaced)
}

// ---------------------------------------------------------------------------------------
// Messages
// ---------------------------------------------------------------------------------------

/// The message shown for a rejected block of point data.
pub open spec fn spec_error_message(error: PointsTextError) -> Seq<char> {
    match error {
        PointsTextError::WrongNumericCount { line, count } => "Line "@ + decimal_text(line as nat)
            + ": expected exactly two numeric values, got "@ + decimal_text(count as nat),
        PointsTextError::NoValuesAfterSplit { line } => "Line "@ + decimal_text(line as nat)
            + ": expected two values, got empty line after parsing"@,
        PointsTextError::MissingSecondValue { line } => "Line "@ + decimal_text(line as nat)
            + ": expected two values 'x y'"@,
        PointsTextError::TooManyValues { line } => "Line "@ + decimal_text(line as nat)
            + ": expected exactly two values separated by space/tab/';'"@,
        PointsTextError::CsvRead { line, detail } => "CSV parse error at line "@ + decimal_text(
            line as nat,
        ) + ": "@ + detail@,
        PointsTextError::NoPoints { source } => match source {
            PointsSource::Clipboard => "No valid points found in clipboard text"@,
            PointsSource::CsvFile => "No valid points found in CSV file"@,
            PointsSource::ExcelWorksheet => "No valid points found in Excel worksheet"@,
        },
    }
}

impl PointsTextError {
    /// The message shown to the user.
    pub fn message(&self) -> (text: String)
        ensures
            text@ == spec_error_message(*self),
    {
        match self {
            PointsTextError::WrongNumericCount { line, count } => {
                let mut text = String::from_str("Line ");
                push_decimal(&mut text, *line);
                text.append(": expected exactly two numeric values, got ");
                push_decimal(&mut text, *count);
                text
            },
            PointsTextError::NoValuesAfterSplit { line } => {
                let mut text = String::from_str("Line ");
                push_decimal(&mut text, *line);
                text.append(": expected two values, got empty line after parsing");
                text
            },
            PointsTextError::MissingSecondValue { line } => {
                let mut text = String::from_str("Line ");
                push_decimal(&mut text, *line);
                text.append(": expected two values 'x y'");
                text
            },
            PointsTextError::TooManyValues { line } => {
                let mut text = String::from_str("Line ");
                push_decimal(&mut text, *line);
                text.append(": expected exactly two values separated by space/tab/';'");
                text
            },
            PointsTextError::CsvRead { line, detail } => {
                let mut text = String::from_str("CSV parse error at line ");
                push_decimal(&mut text, *line);
                text.append(": ");
                text.append(detail.as_str());
                text
            },
            PointsTextError::NoPoints { source } => match source {
                PointsSource::Clipboard => String::from_str("No valid points found in clipboard text"),
                PointsSource::CsvFile => String::from_str("No valid points found in CSV file"),
                PointsSource::ExcelWorksheet => String::from_str(
                    "No valid points found in Excel worksheet",
                ),
            },
        }
    }
}

} // verus!
