use curve_fit::csv_import::{
    count_unquoted_delimiter, detect_csv_delimiter, parse_points_from_csv_bytes,
    parse_points_from_xlsx_range, scan_csv_records, strip_utf8_bom, trim_ascii_whitespace,
    CsvReadout, SheetRange,
};
use curve_fit::point_rows::{normalize_decimal_comma, PointsTextError, RowsScan};

fn number(token: &[char]) -> f64 {
    let normalized = normalize_decimal_comma(token).expect("token must not be empty");
    normalized.iter().collect::<String>().parse().expect("token must parse")
}

fn assert_approx_eq(actual: f64, expected: f64, tolerance: f64) {
    assert!(
        (actual - expected).abs() <= tolerance,
        "expected {expected}, got {actual}, tolerance {tolerance}"
    );
}

fn points(scan: RowsScan) -> Result<Vec<(f64, f64)>, String> {
    if let Some(error) = &scan.error {
        return Err(error.message());
    }
    Ok(scan.rows.iter().map(|row| (number(&row.x), number(&row.y))).collect())
}

fn cell(text: &str) -> Vec<char> {
    text.chars().collect()
}

fn sheet(start_row: Option<u32>, rows: &[&[&str]]) -> SheetRange {
    SheetRange {
        start_row,
        rows: rows.iter().map(|row| row.iter().map(|text| cell(text)).collect()).collect(),
    }
}

#[test]
fn csv_parser_detects_supported_delimiters() {
    let samples = [
        ("1,2\n3,4\n", (3.0, 4.0)),
        ("1;2\n3;4\n", (3.0, 4.0)),
        ("1\t2\n3\t4\n", (3.0, 4.0)),
        ("1|2\n3|4\n", (3.0, 4.0)),
    ];

    for (text, expected_last) in samples {
        let points = points(parse_points_from_csv_bytes(text.as_bytes()))
            .expect("csv payload with valid delimiter must parse");
        assert_eq!(points.len(), 2);
        assert_approx_eq(points[1].0, expected_last.0, 1e-12);
        assert_approx_eq(points[1].1, expected_last.1, 1e-12);
    }
}

#[test]
fn csv_parser_supports_decimal_comma_scientific_and_mixed_rows() {
    let text = "sample;meta\nx;y\n1,23e-3;4.5E+1\nalpha;x=-2,5 y=6,0e2\n";
    let points = points(parse_points_from_csv_bytes(text.as_bytes())).expect("csv payload must parse");

    assert_eq!(points.len(), 2);
    assert_approx_eq(points[0].0, 1.23e-3, 1e-15);
    assert_approx_eq(points[0].1, 45.0, 1e-12);
    assert_approx_eq(points[1].0, -2.5, 1e-12);
    assert_approx_eq(points[1].1, 600.0, 1e-12);
}

#[test]
fn csv_parser_fails_on_line_with_three_values() {
    let error = points(parse_points_from_csv_bytes(b"1,2,3\n")).expect_err("row with three values must fail");
    assert!(
        error.contains("Line 1: expected exactly two numeric values, got 3"),
        "unexpected error: {error}"
    );
}

#[test]
fn csv_parser_fails_when_no_points_found() {
    let error = points(parse_points_from_csv_bytes(b"header;value\nname;unit\n"))
        .expect_err("csv payload without points must fail");
    assert!(
        error.contains("No valid points found in CSV file"),
        "unexpected error: {error}"
    );
}

#[test]
fn xlsx_range_parser_supports_numeric_and_text_cells() {
    let range = sheet(Some(0), &[&["name", "value"], &["1.5", "2,75"], &["sample", "x=-3 y=4"]]);

    let points = points(parse_points_from_xlsx_range(&range)).expect("xlsx range with valid rows must parse");

    assert_eq!(points.len(), 2);
    assert_approx_eq(points[0].0, 1.5, 1e-12);
    assert_approx_eq(points[0].1, 2.75, 1e-12);
    assert_approx_eq(points[1].0, -3.0, 1e-12);
    assert_approx_eq(points[1].1, 4.0, 1e-12);
}

#[test]
fn xlsx_range_parser_fails_on_line_with_three_values() {
    let range = sheet(Some(0), &[&["1", "2", "3"]]);

    let error = points(parse_points_from_xlsx_range(&range)).expect_err("xlsx row with three values must fail");
    assert!(
        error.contains("Line 1: expected exactly two numeric values, got 3"),
        "unexpected error: {error}"
    );
}

#[test]
fn xlsx_range_parser_uses_sheet_row_number_in_error() {
    let range = sheet(Some(9), &[&["1", "2", "3"]]);

    let error = points(parse_points_from_xlsx_range(&range)).expect_err("xlsx row with three values must fail");
    assert!(
        error.contains("Line 10: expected exactly two numeric values, got 3"),
        "unexpected error: {error}"
    );
}

#[test]
fn xlsx_range_parser_fails_when_no_points_found() {
    let range = sheet(Some(0), &[&["name", "value"]]);

    let error = points(parse_points_from_xlsx_range(&range)).expect_err("empty xlsx worksheet must fail");
    assert!(
        error.contains("No valid points found in Excel worksheet"),
        "unexpected error: {error}"
    );
}

#[test]
fn empty_sheet_numbers_rows_from_one() {
    let range = sheet(None, &[]);
    let scan = parse_points_from_xlsx_range(&range);
    assert!(scan.rows.is_empty());
    assert_eq!(scan.error.map(|e| e.message()), Some("No valid points found in Excel worksheet".to_string()));
}

#[test]
fn byte_order_mark_and_ascii_space_are_removed() {
    assert_eq!(strip_utf8_bom(&[0xEF, 0xBB, 0xBF, b'1']), b"1");
    assert_eq!(strip_utf8_bom(b"1,2"), b"1,2");
    assert_eq!(trim_ascii_whitespace(b" \t1;2\r\n"), b"1;2");
    assert_eq!(trim_ascii_whitespace(b" \x0b "), b"\x0b");
}

#[test]
fn quoted_delimiters_are_not_counted() {
    assert_eq!(count_unquoted_delimiter(b"a,\"b,c\",d", b','), 2);
    assert_eq!(count_unquoted_delimiter(b"\"x\"\"y,\",z", b','), 1);
    assert_eq!(count_unquoted_delimiter(b"a;b;c", b','), 0);
}

#[test]
fn delimiter_detection_prefers_most_lines_then_most_hits() {
    assert_eq!(detect_csv_delimiter(b"1;2\n3;4\n"), b';');
    assert_eq!(detect_csv_delimiter(b"a|b|c\n1;2\n3;4\n"), b';');
    assert_eq!(detect_csv_delimiter(b"1;2,5\n3;4,5\n"), b',');
    assert_eq!(detect_csv_delimiter(b"1;2;3\n3,4\n"), b';');
    assert_eq!(detect_csv_delimiter(b"nothing here\n"), b',');
    assert_eq!(detect_csv_delimiter(b""), b',');
}

#[test]
fn delimiter_detection_looks_at_the_first_64_lines_only() {
    let mut text = "1;2\n".repeat(64);
    text.push_str(&"1|2\n".repeat(100));
    assert_eq!(detect_csv_delimiter(text.as_bytes()), b';');
}

#[test]
fn reader_error_rejects_the_next_line() {
    let readout = CsvReadout {
        records: vec![vec![cell("1"), cell("2")]],
        error: Some("broken".to_string()),
    };
    let scan = scan_csv_records(&readout);
    assert_eq!(scan.rows.len(), 1);
    assert_eq!(
        scan.error,
        Some(PointsTextError::CsvRead { line: 2, detail: "broken".to_string() })
    );
}

#[test]
fn byte_order_mark_does_not_hide_the_first_row() {
    let mut bytes = vec![0xEF, 0xBB, 0xBF];
    bytes.extend_from_slice(b"1;2\n3;4\n");
    let points = points(parse_points_from_csv_bytes(&bytes)).expect("csv with BOM must parse");
    assert_eq!(points.len(), 2);
    assert_approx_eq(points[0].0, 1.0, 1e-12);
}
