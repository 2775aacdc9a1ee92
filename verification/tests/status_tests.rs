use curve_fit::status::{
    idle_status_after_points_edit, layer_error_message, prefixed_error,
    refreshed_status_after_points_edit, starts_with, StatusMessage,
    CLIPBOARD_IMPORT_ERROR_PREFIX, FILE_IMPORT_ERROR_PREFIX, POINTS_PARSE_ERROR_PREFIX,
};

#[test]
fn starts_with_compares_the_leading_characters() {
    assert!(starts_with("Points parse error: x", POINTS_PARSE_ERROR_PREFIX));
    assert!(starts_with("abc", ""));
    assert!(!starts_with("ab", "abc"));
    assert!(!starts_with("abd", "abc"));
}

#[test]
fn prefixed_error_adds_the_prefix_once() {
    assert_eq!(
        prefixed_error(FILE_IMPORT_ERROR_PREFIX, "no points"),
        "File import error: no points"
    );
    assert_eq!(
        prefixed_error(FILE_IMPORT_ERROR_PREFIX, "File import error: no points"),
        "File import error: no points"
    );
    assert_eq!(
        prefixed_error(CLIPBOARD_IMPORT_ERROR_PREFIX, "empty"),
        "Clipboard import error: empty"
    );
}

#[test]
fn layer_error_names_the_layer() {
    assert_eq!(
        layer_error_message("Bad input", "Line 1: bad"),
        "Layer 'Bad input': Line 1: bad"
    );
}

#[test]
fn idle_status_depends_on_fit_result() {
    assert!(matches!(idle_status_after_points_edit(true), StatusMessage::FitCompleted));
    assert!(matches!(idle_status_after_points_edit(false), StatusMessage::Ready));
}

#[test]
fn refreshed_status_reports_the_first_error() {
    let refreshed = refreshed_status_after_points_edit(
        Some(StatusMessage::Ready),
        Some("Layer 'A': Line 1: bad".to_string()),
        false,
    );
    assert!(matches!(
        refreshed,
        Some(StatusMessage::Error(m)) if m == "Points parse error: Layer 'A': Line 1: bad"
    ));
}

#[test]
fn refreshed_status_clears_a_stale_parse_error() {
    let stale = Some(StatusMessage::Error("Points parse error: old".to_string()));
    let refreshed = refreshed_status_after_points_edit(stale, None, true);
    assert!(matches!(refreshed, Some(StatusMessage::FitCompleted)));

    let other = Some(StatusMessage::Error("File import error: x".to_string()));
    let kept = refreshed_status_after_points_edit(other, None, false);
    assert!(matches!(kept, Some(StatusMessage::Error(m)) if m == "File import error: x"));

    let none = refreshed_status_after_points_edit(None, None, false);
    assert!(none.is_none());
}

fn first_editor_error(layer_name: &str, text: &str) -> Option<String> {
    let chars: Vec<char> = text.chars().collect();
    for line in curve_fit::point_rows::parse_points_text_lines(&chars) {
        if let Err(error) = line.outcome {
            return Some(layer_error_message(layer_name, &error.message()));
        }
    }
    None
}

#[test]
fn points_edit_parse_error_status_restores_completed_when_fixed() {
    let has_fit_result = true;
    let status = Some(StatusMessage::FitCompleted);

    let status = refreshed_status_after_points_edit(
        status,
        first_editor_error("Layer 1", "1 2 3\n"),
        has_fit_result,
    );
    assert!(matches!(
        status.as_ref(),
        Some(StatusMessage::Error(message)) if message.starts_with(POINTS_PARSE_ERROR_PREFIX)
    ));

    let status = refreshed_status_after_points_edit(
        status,
        first_editor_error("Layer 1", "1 2\n2 3\n"),
        has_fit_result,
    );
    assert!(matches!(status, Some(StatusMessage::FitCompleted)));
}
