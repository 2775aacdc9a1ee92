//! Point import from CSV bytes and worksheet rows: byte-order-mark removal, delimiter
//! detection, record reading through the `csv` crate, and the row scan.

use vstd::prelude::*;
use crate::point_rows::{
    capped_line, row_views, rows_match, scan_fragment_rows, scan_matches, spec_fragment_outcomes,
    spec_scan, spec_view_outcomes, PointsSource, PointsTextError, RowOutcome, RowsScan,
};

verus! {

/// The UTF-8 byte-order mark.
pub open spec fn utf8_bom() -> Seq<u8> {
    seq![0xEFu8, 0xBBu8, 0xBFu8]
}

/// The bytes without a leading UTF-8 byte-order mark.
pub open spec fn spec_strip_utf8_bom(bytes: Seq<u8>) -> Seq<u8> {
    if bytes.len() >= 3 && bytes.take(3) == utf8_bom() {
        bytes.skip(3)
    } else {
        bytes
    }
}

/// Removes a leading UTF-8 byte-order mark.
pub fn strip_utf8_bom(file_bytes: &[u8]) -> (stripped: &[u8])
    ensures
        stripped@ == spec_strip_utf8_bom(file_bytes@),
{
    if file_bytes.len() >= 3 && file_bytes[0] == 0xEF && file_bytes[1] == 0xBB && file_bytes[2]
        == 0xBF {
        proof {
            assert(file_bytes@.take(3) =~= utf8_bom());
        }
        vstd::slice::slice_subrange(file_bytes, 3, file_bytes.len())
    } else {
        proof {
            if file_bytes@.len() >= 3 && file_bytes@.take(3) == utf8_bom() {
                assert(file_bytes@.take(3)[0] == 0xEF);
                assert(file_bytes@.take(3)[1] == 0xBB);
                assert(file_bytes@.take(3)[2] == 0xBF);
            }
        }
        file_bytes
    }
}

/// ASCII white space as `u8::is_ascii_whitespace` defines it: space, tab, line feed, form
/// feed and carriage return.
pub open spec fn spec_is_ascii_whitespace(b: u8) -> bool {
    b == 0x20 || b == 0x09 || b == 0x0A || b == 0x0C || b == 0x0D
}

pub open spec fn ascii_skip_forward(s: Seq<u8>, i: int) -> int
    decreases s.len() - i,
{
    if 0 <= i < s.len() && spec_is_ascii_whitespace(s[i]) {
        ascii_skip_forward(s, i + 1)
    } else {
        i
    }
}

pub open spec fn ascii_skip_backward(s: Seq<u8>, start: int, end: int) -> int
    decreases end - start,
{
    if start < end && spec_is_ascii_whitespace(s[end - 1]) {
        ascii_skip_backward(s, start, end - 1)
    } else {
        end
    }
}

/// The bytes without leading and trailing ASCII white space.
pub open spec fn spec_trim_ascii(s: Seq<u8>) -> Seq<u8> {
    let start = ascii_skip_forward(s, 0);
    s.subrange(start, ascii_skip_backward(s, start, s.len() as int))
}

proof fn lemma_ascii_skip_bounds(s: Seq<u8>, i: int, start: int, end: int)
    requires
        0 <= i <= s.len(),
        0 <= start <= end <= s.len(),
    ensures
        i <= ascii_skip_forward(s, i) <= s.len(),
        start <= ascii_skip_backward(s, start, end) <= end,
    decreases s.len() - i + end - start,
{
    if i < s.len() && spec_is_ascii_whitespace(s[i]) {
        lemma_ascii_skip_bounds(s, i + 1, start, end);
    } else if start < end && spec_is_ascii_whitespace(s[end - 1]) {
        lemma_ascii_skip_bounds(s, i, start, end - 1);
    }
}

fn is_ascii_whitespace_byte(b: u8) -> (result: bool)
    ensures
        result == spec_is_ascii_whitespace(b),
{
    b == 0x20 || b == 0x09 || b == 0x0A || b == 0x0C || b == 0x0D
}

/// The bytes without leading and trailing ASCII white space.
pub fn trim_ascii_whitespace(input: &[u8]) -> (trimmed: &[u8])
    ensures
        trimmed@ == spec_trim_ascii(input@),
{
    let mut start: usize = 0;
    while start < input.len() && is_ascii_whitespace_byte(input[start])
        invariant
            start <= input.len(),
            ascii_skip_forward(input@, start as int) == ascii_skip_forward(input@, 0),
        decreases input.len() - start,
    {
        start = start + 1;
    }
    let mut end: usize = input.len();
    while start < end && is_ascii_whitespace_byte(input[end - 1])
        invariant
            start <= end <= input.len(),
            ascii_skip_backward(input@, start as int, end as int) == ascii_skip_backward(
                input@,
                start as int,
                input.len() as int,
            ),
        decreases end - start,
    {
        end = end - 1;
    }
    vstd::slice::slice_subrange(input, start, end)
}

/// How many times `delimiter` occurs outside double quotes in `line` from position `i`, the
/// quote being open or not at `i`; a doubled quote inside quotes is an escaped quote.
pub open spec fn unquoted_count_from(line: Seq<u8>, delimiter: u8, i: int, quote_open: bool) -> nat
    decreases line.len() - i,
{
    if i < 0 || i >= line.len() {
        0
    } else if line[i] == 0x22u8 {
        if quote_open && i + 1 < line.len() && line[i + 1] == 0x22u8 {
            unquoted_count_from(line, delimiter, i + 2, quote_open)
        } else {
            unquoted_count_from(line, delimiter, i + 1, !quote_open)
        }
    } else if line[i] == delimiter && !quote_open {
        1 + unquoted_count_from(line, delimiter, i + 1, quote_open)
    } else {
        unquoted_count_from(line, delimiter, i + 1, quote_open)
    }
}

/// How many times `delimiter` occurs outside double quotes in `line`.
pub open spec fn spec_unquoted_count(line: Seq<u8>, delimiter: u8) -> nat {
    unquoted_count_from(line, delimiter, 0, false)
}

proof fn lemma_unquoted_count_bound(line: Seq<u8>, delimiter: u8, i: int, quote_open: bool)
    requires
        0 <= i <= line.len(),
    ensures
        unquoted_count_from(line, delimiter, i, quote_open) <= line.len() - i,
    decreases line.len() - i,
{
    if i < line.len() {
        if line[i] == 0x22u8 {
            if quote_open && i + 1 < line.len() && line[i + 1] == 0x22u8 {
                lemma_unquoted_count_bound(line, delimiter, i + 2, quote_open);
            } else {
                lemma_unquoted_count_bound(line, delimiter, i + 1, !quote_open);
            }
        } else {
            lemma_unquoted_count_bound(line, delimiter, i + 1, quote_open);
        }
    }
}

/// Counts the occurrences of `delimiter` outside double-quoted sections of `line`.
pub fn count_unquoted_delimiter(line: &[u8], delimiter: u8) -> (count: usize)
    ensures
        count == spec_unquoted_count(line@, delimiter),
{
    let mut quote_open = false;
    let mut count: usize = 0;
    let mut index: usize = 0;
    proof {
        lemma_unquoted_count_bound(line@, delimiter, 0, false);
    }
    while index < line.len()
        invariant
            index <= line.len() + 1,
            count + unquoted_count_from(line@, delimiter, index as int, quote_open)
                == spec_unquoted_count(line@, delimiter),
            spec_unquoted_count(line@, delimiter) <= line.len(),
        decreases line.len() + 1 - index,
    {
        if line[index] == 0x22 {
            if quote_open && index + 1 < line.len() && line[index + 1] == 0x22 {
                index = index + 2;
                continue;
            }
            quote_open = !quote_open;
        } else if line[index] == delimiter && !quote_open {
            count = count + 1;
        }
        index = index + 1;
    }
    count
}

// ---------------------------------------------------------------------------------------
// Delimiter detection
// ---------------------------------------------------------------------------------------

/// The delimiters the detection chooses among, in order of preference on ties.
pub open spec fn delimiter_candidates() -> Seq<u8> {
    seq![0x2Cu8, 0x3Bu8, 0x09u8, 0x7Cu8]
}

/// How many leading non-empty lines the detection looks at.
pub const MAX_CSV_DELIMITER_DETECTION_LINES: usize = 64;

/// The end of the byte line that starts at `i`.
pub open spec fn byte_line_end(s: Seq<u8>, i: int) -> int
    decreases s.len() - i,
{
    if 0 <= i < s.len() && s[i] != 0x0Au8 {
        byte_line_end(s, i + 1)
    } else {
        i
    }
}

pub proof fn lemma_byte_line_end_bounds(s: Seq<u8>, i: int)
    requires
        0 <= i <= s.len(),
    ensures
        i <= byte_line_end(s, i) <= s.len(),
    decreases s.len() - i,
{
    if i < s.len() && s[i] != 0x0Au8 {
        lemma_byte_line_end_bounds(s, i + 1);
    }
}

/// The lines of `s` from position `i`, split at line feeds.
pub open spec fn byte_lines_from(s: Seq<u8>, i: int) -> Seq<Seq<u8>>
    decreases s.len() - i,
{
    if i < 0 || i >= s.len() {
        seq![]
    } else {
        let e = byte_line_end(s, i);
        proof {
            lemma_byte_line_end_bounds(s, i);
        }
        if e < s.len() {
            seq![s.subrange(i, e)] + byte_lines_from(s, e + 1)
        } else {
            seq![s.subrange(i, e)]
        }
    }
}

/// The trimmed lines that are not empty, in order.
pub open spec fn keep_non_empty(lines: Seq<Seq<u8>>) -> Seq<Seq<u8>>
    decreases lines.len(),
{
    if lines.len() == 0 {
        seq![]
    } else {
        let previous = keep_non_empty(lines.drop_last());
        let line = spec_trim_ascii(lines.last());
        if line.len() > 0 {
            previous.push(line)
        } else {
            previous
        }
    }
}

/// The lines the detection looks at: the first 64 lines that are not blank, trimmed.
pub open spec fn analyzed_lines(bytes: Seq<u8>) -> Seq<Seq<u8>> {
    let lines = keep_non_empty(byte_lines_from(bytes, 0));
    if lines.len() > MAX_CSV_DELIMITER_DETECTION_LINES {
        lines.take(MAX_CSV_DELIMITER_DETECTION_LINES as int)
    } else {
        lines
    }
}

/// How a delimiter scores on some lines: the number of lines where it occurs outside
/// quotes, and its total number of such occurrences.
pub open spec fn delimiter_score(lines: Seq<Seq<u8>>, delimiter: u8) -> (nat, nat)
    decreases lines.len(),
{
    if lines.len() == 0 {
        (0, 0)
    } else {
        let previous = delimiter_score(lines.drop_last(), delimiter);
        let hits = spec_unquoted_count(lines.last(), delimiter);
        if hits > 0 {
            ((previous.0 + 1) as nat, previous.1 + hits)
        } else {
            previous
        }
    }
}

/// Whether a score beats another: more lines with hits, or as many lines and more hits.
pub open spec fn score_beats(a: (nat, nat), b: (nat, nat)) -> bool {
    a.0 > b.0 || (a.0 == b.0 && a.1 > b.1)
}

/// The index of the best-scoring candidate among the first `n`; the earlier wins a tie.
pub open spec fn best_candidate(lines: Seq<Seq<u8>>, n: nat) -> nat
    decreases n,
{
    if n <= 1 {
        0
    } else {
        let previous = best_candidate(lines, (n - 1) as nat);
        if score_beats(
            delimiter_score(lines, delimiter_candidates()[n - 1]),
            delimiter_score(lines, delimiter_candidates()[previous as int]),
        ) {
            (n - 1) as nat
        } else {
            previous
        }
    }
}

/// The delimiter detected for CSV bytes: among `,`, `;`, tab and `|`, the one found outside
/// quotes on the most of the first 64 non-blank lines, then with the most occurrences, the
/// earlier candidate winning a tie; `,` when none occurs at all.
pub open spec fn spec_detected_delimiter(bytes: Seq<u8>) -> u8 {
    let lines = analyzed_lines(bytes);
    let best = best_candidate(lines, 4);
    if delimiter_score(lines, delimiter_candidates()[best as int]).0 == 0 {
        0x2Cu8
    } else {
        delimiter_candidates()[best as int]
    }
}

proof fn lemma_keep_non_empty_prefix(lines: Seq<Seq<u8>>, n: int)
    requires
        0 <= n <= lines.len(),
    ensures
        keep_non_empty(lines.take(n)).len() <= keep_non_empty(lines).len(),
        keep_non_empty(lines).take(keep_non_empty(lines.take(n)).len() as int) =~= keep_non_empty(
            lines.take(n),
        ),
    decreases lines.len() - n,
{
    if n == lines.len() {
        assert(lines.take(n) =~= lines);
    } else {
        lemma_keep_non_empty_prefix(lines, n + 1);
        assert(lines.take(n + 1).drop_last() =~= lines.take(n));
    }
}

proof fn lemma_score_bound(lines: Seq<Seq<u8>>, delimiter: u8)
    ensures
        delimiter_score(lines, delimiter).0 <= lines.len(),
    decreases lines.len(),
{
    if lines.len() > 0 {
        lemma_score_bound(lines.drop_last(), delimiter);
    }
}

/// Scores one delimiter on the given lines.
fn score_delimiter(lines: &Vec<&[u8]>, delimiter: u8) -> (score: (usize, u128))
    requires
        lines.len() <= MAX_CSV_DELIMITER_DETECTION_LINES,
        forall|k: int| 0 <= k < lines.len() ==> (#[trigger] lines@[k])@.len() <= usize::MAX,
    ensures
        score.0 == delimiter_score(lines@.map_values(|l: &[u8]| l@), delimiter).0,
        score.1 == delimiter_score(lines@.map_values(|l: &[u8]| l@), delimiter).1,
{
    let ghost views = lines@.map_values(|l: &[u8]| l@);
    let mut with_hits: usize = 0;
    let mut total: u128 = 0;
    let mut k: usize = 0;
    while k < lines.len()
        invariant
            k <= lines.len() <= MAX_CSV_DELIMITER_DETECTION_LINES,
            views == lines@.map_values(|l: &[u8]| l@),
            with_hits == delimiter_score(views.take(k as int), delimiter).0,
            total == delimiter_score(views.take(k as int), delimiter).1,
            total <= k * 0x1_0000_0000_0000_0000,
        decreases lines.len() - k,
    {
        let hits = count_unquoted_delimiter(lines[k], delimiter);
        proof {
            assert(views.take(k + 1).drop_last() =~= views.take(k as int));
            assert(views.take(k + 1).last() == lines@[k as int]@);
            lemma_score_bound(views.take(k as int), delimiter);
        }
        if hits > 0 {
            with_hits = with_hits + 1;
            total = total + hits as u128;
        }
        k = k + 1;
    }
    proof {
        assert(views.take(lines.len() as int) =~= views);
    }
    (with_hits, total)
}

/// Picks the CSV delimiter by looking at the first 64 non-blank lines; see
/// [`spec_detected_delimiter`].
pub fn detect_csv_delimiter(file_bytes: &[u8]) -> (delimiter: u8)
    ensures
        delimiter == spec_detected_delimiter(file_bytes@),
{
    let ghost s = file_bytes@;
    let ghost all_lines = byte_lines_from(s, 0);
    let mut lines: Vec<&[u8]> = Vec::new();
    let mut position: usize = 0;
    let mut n: usize = 0;
    while position < file_bytes.len() && lines.len() < MAX_CSV_DELIMITER_DETECTION_LINES
        invariant
            s == file_bytes@,
            all_lines == byte_lines_from(s, 0),
            n <= position <= file_bytes.len(),
            n <= all_lines.len(),
            n + byte_lines_from(s, position as int).len() == all_lines.len(),
            forall|k: int|
                0 <= k < byte_lines_from(s, position as int).len() ==> all_lines[n + k]
                    == #[trigger] byte_lines_from(s, position as int)[k],
            lines.len() <= MAX_CSV_DELIMITER_DETECTION_LINES,
            lines@.map_values(|l: &[u8]| l@) == keep_non_empty(all_lines.take(n as int)),
            forall|k: int| 0 <= k < lines.len() ==> (#[trigger] lines@[k])@.len() <= usize::MAX,
        decreases file_bytes.len() - position,
    {
        let mut end = position;
        while end < file_bytes.len() && file_bytes[end] != 0x0A
            invariant
                position <= end <= file_bytes.len(),
                byte_line_end(s, end as int) == byte_line_end(s, position as int),
                s == file_bytes@,
            decreases file_bytes.len() - end,
        {
            end = end + 1;
        }
        let raw_line = vstd::slice::slice_subrange(file_bytes, position, end);
        let line = trim_ascii_whitespace(raw_line);
        proof {
            lemma_byte_line_end_bounds(s, position as int);
            assert(byte_lines_from(s, position as int)[0] == raw_line@);
            assert(all_lines[n as int] == raw_line@);
            assert(all_lines.take(n + 1).drop_last() =~= all_lines.take(n as int));
            if end < file_bytes.len() {
                assert forall|k: int| 0 <= k < byte_lines_from(s, end + 1).len() implies all_lines[n + 1 + k]
                    == #[trigger] byte_lines_from(s, end + 1)[k] by {
                    assert(byte_lines_from(s, position as int)[k + 1] == byte_lines_from(s, end + 1)[k]);
                }
            }
        }
        if line.len() > 0 {
            lines.push(line);
            proof {
                assert(lines@.map_values(|l: &[u8]| l@) =~= keep_non_empty(all_lines.take(n + 1)));
            }
        } else {
            proof {
                assert(lines@.map_values(|l: &[u8]| l@) =~= keep_non_empty(all_lines.take(n + 1)));
            }
        }
        n = n + 1;
        position = if end < file_bytes.len() {
            end + 1
        } else {
            end
        };
    }
    proof {
        let kept = keep_non_empty(all_lines);
        lemma_keep_non_empty_prefix(all_lines, n as int);
        if lines.len() < MAX_CSV_DELIMITER_DETECTION_LINES {
            assert(byte_lines_from(s, position as int).len() == 0);
            assert(all_lines.take(n as int) =~= all_lines);
        }
        assert(lines@.map_values(|l: &[u8]| l@) =~= analyzed_lines(s));
    }
    let candidates: [u8; 4] = [0x2C, 0x3B, 0x09, 0x7C];
    let ghost views = lines@.map_values(|l: &[u8]| l@);
    proof {
        assert(candidates@ =~= delimiter_candidates());
    }
    let mut best: usize = 0;
    let mut best_score = score_delimiter(&lines, candidates[0]);
    let mut index: usize = 1;
    while index < 4
        invariant
            1 <= index <= 4,
            candidates@ == delimiter_candidates(),
            views == lines@.map_values(|l: &[u8]| l@),
            lines.len() <= MAX_CSV_DELIMITER_DETECTION_LINES,
            forall|k: int| 0 <= k < lines.len() ==> (#[trigger] lines@[k])@.len() <= usize::MAX,
            best == best_candidate(views, index as nat),
            best < index,
            best_score.0 == delimiter_score(views, delimiter_candidates()[best as int]).0,
            best_score.1 == delimiter_score(views, delimiter_candidates()[best as int]).1,
        decreases 4 - index,
    {
        let score = score_delimiter(&lines, candidates[index]);
        if score.0 > best_score.0 || (score.0 == best_score.0 && score.1 > best_score.1) {
            best = index;
            best_score = score;
        }
        index = index + 1;
    }
    if best_score.0 == 0 {
        0x2C
    } else {
        candidates[best]
    }
}

// ---------------------------------------------------------------------------------------
// Records
// ---------------------------------------------------------------------------------------

/// The character content of an optional message.
pub open spec fn optional_text(message: Option<String>) -> Option<Seq<char>> {
    match message {
        Some(text) => Some(text@),
        None => None,
    }
}

/// The records the CSV reader produced, each a list of fields read as text, and the
/// reader's message when it stopped on an error.
pub struct CsvReadout {
    pub records: Vec<Vec<Vec<char>>>,
    pub error: Option<String>,
}

/// The records of a CSV reader configured with no header row, records of varying length
/// and the given delimiter, over the given bytes: each field decoded as UTF-8 with invalid
/// sequences replaced, up to the first error, and that error's message.
pub uninterp spec fn csv_reader_records(bytes: Seq<u8>, delimiter: u8) -> (
    Seq<Seq<Seq<char>>>,
    Option<Seq<char>>,
);


/// Reads the records with `csv::ReaderBuilder` (`has_headers(false)`, `flexible(true)`,
/// `delimiter`) and `Reader::byte_records`; each field goes through
/// `String::from_utf8_lossy`. Claimed: the result is the crate's reading of these bytes
/// with this delimiter, which depends on nothing else.
#[verifier::external_body]
fn read_csv_records(bytes: &[u8], delimiter: u8) -> (readout: CsvReadout)
    ensures
        (row_views(readout.records@), optional_text(readout.error)) == csv_reader_records(
            bytes@,
            delimiter,
        ),
{
    let mut reader = csv::ReaderBuilder::new().has_headers(false).flexible(true).delimiter(
        delimiter,
    ).from_reader(bytes);
    let mut records = Vec::new();
    for record in reader.byte_records() {
        let record = match record {
            Ok(record) => record,
            Err(error) => return CsvReadout { records, error: Some(error.to_string()) },
        };
        let fields = record.iter().map(|field| String::from_utf8_lossy(field).chars().collect());
        records.push(fields.collect());
    }
    CsvReadout { records, error: None }
}

/// Whether `scan` is the scan of CSV records (numbered from 1) that a reader produced,
/// followed by the reader's error, if any: that error rejects the line after the records
/// unless a record was rejected before it.
pub open spec fn csv_scan_result(
    scan: RowsScan,
    records: Seq<Seq<Seq<char>>>,
    error: Option<Seq<char>>,
) -> bool {
    let outcomes = spec_view_outcomes(records);
    let expected = spec_scan(outcomes, 1);
    if error.is_some() && expected.1 is None {
        &&& rows_match(scan.rows@, expected.0)
        &&& scan.error matches Some(PointsTextError::CsvRead { line, detail })
        &&& detail@ == error.unwrap()
        &&& line == capped_line(1, records.len())
    } else {
        scan_matches(scan, outcomes, 1, PointsSource::CsvFile)
    }
}

/// Scans CSV records (numbered from 1) for points; a reader error after the records rejects
/// the next line when no record was rejected before it.
pub fn scan_csv_records(readout: &CsvReadout) -> (scan: RowsScan)
    ensures
        csv_scan_result(scan, row_views(readout.records@), optional_text(readout.error)),
{
    let scan = scan_fragment_rows(1, &readout.records, PointsSource::CsvFile);
    match &readout.error {
        Some(detail) => {
            let rejected = match &scan.error {
                Some(PointsTextError::WrongNumericCount { .. }) => true,
                _ => false,
            };
            if rejected {
                scan
            } else {
                let line = if readout.records.len() < usize::MAX {
                    readout.records.len() + 1
                } else {
                    usize::MAX
                };
                RowsScan {
                    rows: scan.rows,
                    error: Some(PointsTextError::CsvRead { line, detail: copy_string(detail) }),
                }
            }
        },
        None => scan,
    }
}

/// A copy of a string.
fn copy_string(text: &String) -> (copy: String)
    ensures
        copy@ == text@,
{
    String::from_str(text.as_str())
}

/// Reads points from the bytes of a CSV file: drops a byte-order mark, detects the
/// delimiter, reads the records with the `csv` crate and scans them.
pub fn parse_points_from_csv_bytes(file_bytes: &[u8]) -> (scan: RowsScan)
    ensures
        ({
            let normalized = spec_strip_utf8_bom(file_bytes@);
            let read = csv_reader_records(normalized, spec_detected_delimiter(normalized));
            csv_scan_result(scan, read.0, read.1)
        }),
{
    let normalized = strip_utf8_bom(file_bytes);
    let delimiter = detect_csv_delimiter(normalized);
    let readout = read_csv_records(normalized, delimiter);
    scan_csv_records(&readout)
}

/// A worksheet's used range: the sheet row of its first row (0-based), if any, and its rows
/// of cells, each cell read as text.
pub struct SheetRange {
    pub start_row: Option<u32>,
    pub rows: Vec<Vec<Vec<char>>>,
}

/// The sheet number (1-based) of the first row of a range.
pub open spec fn sheet_first_line(start_row: Option<u32>) -> nat {
    match start_row {
        Some(row) => capped_line(row as nat, 1),
        None => 1,
    }
}

/// Scans the rows of a worksheet for points; rows are numbered as in the sheet (1-based).
pub fn parse_points_from_xlsx_range(range: &SheetRange) -> (scan: RowsScan)
    ensures
        scan_matches(
            scan,
            spec_fragment_outcomes(range.rows@),
            sheet_first_line(range.start_row),
            PointsSource::ExcelWorksheet,
        ),
{
    let first_line: usize = match range.start_row {
        Some(row) => if (row as usize) < usize::MAX {
            row as usize + 1
        } else {
            usize::MAX
        },
        None => 1,
    };
    scan_fragment_rows(first_line, &range.rows, PointsSource::ExcelWorksheet)
}

} // verus!
