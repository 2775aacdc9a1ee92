use curve_fit::point_rows::{
    normalize_decimal_comma, parse_point_from_clipboard_like_fragments, parse_point_line,
    parse_points_from_clipboard_text, parse_points_text_lines, PointTokens, PointsSource,
    PointsTextError, RowsScan,
};
use curve_fit::points_text::{clipboard_numeric_tokens, numeric_token_texts, parse_numeric_token_end};

fn chars(text: &str) -> Vec<char> {
    text.chars().collect()
}

fn fragments(parts: &[&str]) -> Vec<Vec<char>> {
    parts.iter().map(|part| chars(part)).collect()
}

fn number(token: &[char]) -> f64 {
    let normalized = normalize_decimal_comma(token).expect("token must not be empty");
    normalized.iter().collect::<String>().parse().expect("token must parse")
}

fn assert_approx_eq(actual: f64, expected: f64, tolerance: f64) {
    assert!(
        (actual - expected).abs() <= tolerance,
        "expected {expected}, got {actual}, tolerance {tolerance}"
    );
}

fn scan_points(scan: &RowsScan) -> Result<Vec<(f64, f64)>, String> {
    if let Some(error) = &scan.error {
        return Err(error.message());
    }
    Ok(scan.rows.iter().map(|row| (number(&row.x), number(&row.y))).collect())
}

fn clipboard(text: &str) -> Result<Vec<(f64, f64)>, String> {
    scan_points(&parse_points_from_clipboard_text(&chars(text)))
}

fn token_strings(line: &str) -> Vec<String> {
    numeric_token_texts(&chars(line)).iter().map(|t| t.iter().collect()).collect()
}

#[test]
fn clipboard_like_row_parser_parses_two_values() {
    let tokens = parse_point_from_clipboard_like_fragments(5, &fragments(&["meta", "x=1.5", "note", "y=2,75"]))
        .expect("row must parse")
        .expect("row must produce a point");

    assert_approx_eq(number(&tokens.x), 1.5, 1e-12);
    assert_approx_eq(number(&tokens.y), 2.75, 1e-12);
}

#[test]
fn clipboard_like_row_parser_skips_rows_without_numbers() {
    let point = parse_point_from_clipboard_like_fragments(3, &fragments(&["header", "label", "unit"]))
        .expect("row without numbers must be skipped");
    assert!(point.is_none());
}

#[test]
fn clipboard_like_row_parser_fails_on_single_value() {
    let error = parse_point_from_clipboard_like_fragments(2, &fragments(&["id=42"]))
        .expect_err("row with one numeric value must fail")
        .message();
    assert!(
        error.contains("Line 2: expected exactly two numeric values, got 1"),
        "unexpected error: {error}"
    );
}

#[test]
fn clipboard_like_row_parser_fails_on_three_values() {
    let error = parse_point_from_clipboard_like_fragments(7, &fragments(&["1", "2", "3"]))
        .expect_err("row with three numeric values must fail")
        .message();
    assert!(
        error.contains("Line 7: expected exactly two numeric values, got 3"),
        "unexpected error: {error}"
    );
}

#[test]
fn clipboard_parser_accepts_mixed_delimiters() {
    let text = "0 1\n2\t3\n4;5\n6|7\n8/9";
    let points = clipboard(text).expect("clipboard text must parse");
    assert_eq!(points.len(), 5);
    assert_approx_eq(points[0].0, 0.0, 1e-12);
    assert_approx_eq(points[0].1, 1.0, 1e-12);
    assert_approx_eq(points[4].0, 8.0, 1e-12);
    assert_approx_eq(points[4].1, 9.0, 1e-12);
}

#[test]
fn clipboard_parser_supports_decimal_comma_and_scientific_notation() {
    let text = "1,23e-3;4.5E+1\n-2,5\t6,0e2";
    let points = clipboard(text).expect("clipboard text must parse");
    assert_eq!(points.len(), 2);
    assert_approx_eq(points[0].0, 1.23e-3, 1e-15);
    assert_approx_eq(points[0].1, 45.0, 1e-12);
    assert_approx_eq(points[1].0, -2.5, 1e-12);
    assert_approx_eq(points[1].1, 600.0, 1e-12);
}

#[test]
fn clipboard_parser_allows_extra_non_numeric_columns() {
    let text = "sample_a alpha x=1.5 beta y=2,75 note";
    let points = clipboard(text).expect("clipboard text must parse");
    assert_eq!(points.len(), 1);
    assert_approx_eq(points[0].0, 1.5, 1e-12);
    assert_approx_eq(points[0].1, 2.75, 1e-12);
}

#[test]
fn clipboard_parser_skips_lines_without_numbers() {
    let text = "name;value\nheader row\n1;2";
    let points = clipboard(text).expect("clipboard text must parse");
    assert_eq!(points.len(), 1);
    assert_approx_eq(points[0].0, 1.0, 1e-12);
    assert_approx_eq(points[0].1, 2.0, 1e-12);
}

#[test]
fn clipboard_parser_ignores_embedded_numbers_inside_labels() {
    let text = "row-1 v1.2 label\nx=3 y=4";
    let points = clipboard(text).expect("clipboard text must parse");
    assert_eq!(points.len(), 1);
    assert_approx_eq(points[0].0, 3.0, 1e-12);
    assert_approx_eq(points[0].1, 4.0, 1e-12);
}

#[test]
fn clipboard_parser_fails_on_single_numeric_value_per_data_line() {
    let error = clipboard("row id=42").expect_err("line with one numeric value must fail");
    assert!(
        error.contains("Line 1: expected exactly two numeric values, got 1"),
        "unexpected error: {error}"
    );
}

#[test]
fn clipboard_parser_fails_on_three_or_more_numeric_values() {
    let error = clipboard("1 2 3").expect_err("line with three numeric values must fail");
    assert!(
        error.contains("Line 1: expected exactly two numeric values, got 3"),
        "unexpected error: {error}"
    );
}

#[test]
fn clipboard_parser_fails_when_no_points_are_found() {
    let error = clipboard(" \n\t\n").expect_err("empty clipboard payload must fail");
    assert!(
        error.contains("No valid points found in clipboard text"),
        "unexpected error: {error}"
    );
}

#[test]
fn numeric_tokens_skip_numbers_glued_to_words() {
    assert_eq!(token_strings("row-1 v1.2 sample_3 x=-4.5e+2 7e"), vec!["-4.5e+2", "7"]);
    assert_eq!(token_strings("+.5 -,25 1. 2,"), vec!["+.5", "-,25", "1.", "2,"]);
    assert_eq!(token_strings("+ - . ,"), Vec::<String>::new());
    assert_eq!(clipboard_numeric_tokens(&chars("ab 12 cd")), vec![(3, 5)]);
}

#[test]
fn numeric_token_end_follows_the_grammar() {
    let line = chars("-12.5e-3x");
    assert_eq!(parse_numeric_token_end(&line, 0), Some(8));
    assert_eq!(parse_numeric_token_end(&chars("1e+"), 0), Some(1));
    assert_eq!(parse_numeric_token_end(&chars("-"), 0), None);
    assert_eq!(parse_numeric_token_end(&chars(".e5"), 0), None);
}

#[test]
fn rejected_line_stops_the_scan_after_earlier_points() {
    let scan = parse_points_from_clipboard_text(&chars("1 2\n\n3 4 5\n6 7"));
    assert_eq!(scan.rows.len(), 1);
    assert_eq!(scan.rows[0].line, 1);
    assert_eq!(scan.error, Some(PointsTextError::WrongNumericCount { line: 3, count: 3 }));
}

#[test]
fn editor_lines_report_each_line() {
    let lines = parse_points_text_lines(&chars("1 2\n\n;;\n3\n4 5 6\n7;8\n"));
    assert_eq!(lines.len(), 6);
    assert_eq!(
        lines[0].outcome,
        Ok(Some(PointTokens { x: chars("1"), y: chars("2") }))
    );
    assert_eq!(lines[1].outcome, Ok(None));
    assert_eq!(lines[2].outcome, Err(PointsTextError::NoValuesAfterSplit { line: 3 }));
    assert_eq!(lines[3].outcome, Err(PointsTextError::MissingSecondValue { line: 4 }));
    assert_eq!(lines[4].outcome, Err(PointsTextError::TooManyValues { line: 5 }));
    assert_eq!(lines[5].line, 6);
    assert_eq!(
        lines[5].outcome,
        Ok(Some(PointTokens { x: chars("7"), y: chars("8") }))
    );
}

#[test]
fn editor_line_keeps_unparsed_fields() {
    let outcome = parse_point_line(9, &chars("  abc\u{a0}1,5 \r"));
    assert_eq!(outcome, Ok(Some(PointTokens { x: chars("abc"), y: chars("1,5") })));
}

#[test]
fn decimal_comma_is_read_as_a_point_only_without_a_point() {
    assert_eq!(normalize_decimal_comma(&chars(" 1,25 ")), Some(chars("1.25")));
    assert_eq!(normalize_decimal_comma(&chars("1,2.5")), Some(chars("1,2.5")));
    assert_eq!(normalize_decimal_comma(&chars("   ")), None);
}

#[test]
fn error_messages_name_the_line() {
    assert_eq!(
        PointsTextError::MissingSecondValue { line: 12 }.message(),
        "Line 12: expected two values 'x y'"
    );
    assert_eq!(
        PointsTextError::TooManyValues { line: 3 }.message(),
        "Line 3: expected exactly two values separated by space/tab/';'"
    );
    assert_eq!(
        PointsTextError::NoValuesAfterSplit { line: 100 }.message(),
        "Line 100: expected two values, got empty line after parsing"
    );
    assert_eq!(
        PointsTextError::CsvRead { line: 7, detail: "bad".to_string() }.message(),
        "CSV parse error at line 7: bad"
    );
    assert_eq!(
        PointsTextError::NoPoints { source: PointsSource::ExcelWorksheet }.message(),
        "No valid points found in Excel worksheet"
    );
}
