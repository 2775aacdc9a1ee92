//! The short state shown in the status bar.

use vstd::prelude::*;
use crate::i18n::{spec_tr, tr, UiLanguage};
use crate::text::str_to_chars;

verus! {

/// What the application is doing, or the error it met.
#[derive(Debug)]
pub enum StatusMessage {
    Ready,
    Cleared,
    FittingInProgress,
    FittingStopping,
    FitStopped,
    FitCompleted,
    Error(String),
}

/// The status text in a language; an error shows its own message.
pub open spec fn spec_status_text(status: StatusMessage, language: UiLanguage) -> Seq<char> {
    match status {
        StatusMessage::Ready => spec_tr(language, "Ready"@, "Готово"@),
        StatusMessage::Cleared => spec_tr(language, "Input cleared"@, "Поле ввода очищено"@),
        StatusMessage::FittingInProgress => spec_tr(
            language,
            "Fitting in progress"@,
            "Подгонка в процессе"@,
        ),
        StatusMessage::FittingStopping => spec_tr(
            language,
            "Stopping fit..."@,
            "Останавливаем подгонку..."@,
        ),
        StatusMessage::FitStopped => spec_tr(language, "Fit stopped"@, "Подгонка остановлена"@),
        StatusMessage::FitCompleted => spec_tr(language, "Fit completed"@, "Фитинг завершен"@),
        StatusMessage::Error(message) => message@,
    }
}

impl StatusMessage {
    /// Whether the status is an error.
    pub fn is_error(&self) -> (result: bool)
        ensures
            result == (*self is Error),
    {
        matches!(self, StatusMessage::Error(_))
    }

    /// The status text in a language.
    pub fn text(&self, language: UiLanguage) -> (text: &str)
        ensures
            text@ == spec_status_text(*self, language),
    {
        match self {
            StatusMessage::Ready => tr(language, "Ready", "Готово"),
            StatusMessage::Cleared => tr(language, "Input cleared", "Поле ввода очищено"),
            StatusMessage::FittingInProgress => tr(
                language,
                "Fitting in progress",
                "Подгонка в процессе",
            ),
            StatusMessage::FittingStopping => tr(
                language,
                "Stopping fit...",
                "Останавливаем подгонку...",
            ),
            StatusMessage::FitStopped => tr(language, "Fit stopped", "Подгонка остановлена"),
            StatusMessage::FitCompleted => tr(language, "Fit completed", "Фитинг завершен"),
            StatusMessage::Error(message) => message.as_str(),
        }
    }
}

/// The start of the status text of a points parse error.
pub const POINTS_PARSE_ERROR_PREFIX: &'static str = "Points parse error: ";
/// The start of the status text of a failed paste.
pub const CLIPBOARD_IMPORT_ERROR_PREFIX: &'static str = "Clipboard import error: ";
/// The start of the status text of a failed file import.
pub const FILE_IMPORT_ERROR_PREFIX: &'static str = "File import error: ";

/// Whether `text` starts with `prefix`.
pub open spec fn spec_starts_with(text: Seq<char>, prefix: Seq<char>) -> bool {
    prefix.len() <= text.len() && text.take(prefix.len() as int) == prefix
}

/// Whether a string starts with a prefix.
pub fn starts_with(text: &str, prefix: &str) -> (result: bool)
    ensures
        result == spec_starts_with(text@, prefix@),
{
    let text_chars = str_to_chars(text);
    let prefix_chars = str_to_chars(prefix);
    if prefix_chars.len() > text_chars.len() {
        return false;
    }
    let mut k: usize = 0;
    while k < prefix_chars.len()
        invariant
            k <= prefix_chars.len() <= text_chars.len(),
            text_chars@ == text@,
            prefix_chars@ == prefix@,
            text_chars@.take(k as int) == prefix_chars@.take(k as int),
        decreases prefix_chars.len() - k,
    {
        if text_chars[k] != prefix_chars[k] {
            proof {
                assert(text_chars@.take(prefix_chars.len() as int)[k as int] != prefix_chars@[k as int]);
            }
            return false;
        }
        proof {
            assert(text_chars@.take(k + 1) =~= text_chars@.take(k as int).push(text_chars@[k as int]));
            assert(prefix_chars@.take(k + 1) =~= prefix_chars@.take(k as int).push(prefix_chars@[k as int]));
        }
        k = k + 1;
    }
    proof {
        assert(prefix_chars@.take(k as int) =~= prefix_chars@);
    }
    true
}

/// An error message that starts with `prefix`: kept when it already does, else prefixed.
pub open spec fn spec_prefixed_error(prefix: Seq<char>, message: Seq<char>) -> Seq<char> {
    if spec_starts_with(message, prefix) {
        message
    } else {
        prefix + message
    }
}

/// An error message that starts with `prefix`.
pub fn prefixed_error(prefix: &str, message: &str) -> (text: String)
    ensures
        text@ == spec_prefixed_error(prefix@, message@),
{
    if starts_with(message, prefix) {
        String::from_str(message)
    } else {
        let mut text = String::from_str(prefix);
        text.append(message);
        text
    }
}

/// The status once points changed and nothing is wrong: `FitCompleted` while a fit result
/// is shown, else `Ready`.
pub fn idle_status_after_points_edit(has_fit_result: bool) -> (status: StatusMessage)
    ensures
        has_fit_result ==> status is FitCompleted,
        !has_fit_result ==> status is Ready,
{
    if has_fit_result {
        StatusMessage::FitCompleted
    } else {
        StatusMessage::Ready
    }
}

/// The error text of a layer whose points do not parse.
pub open spec fn spec_layer_error(display_name: Seq<char>, error: Seq<char>) -> Seq<char> {
    "Layer '"@ + display_name + "': "@ + error
}

/// The error text of a layer whose points do not parse: `Layer '<name>': <error>`.
pub fn layer_error_message(display_name: &str, error: &str) -> (text: String)
    ensures
        text@ == spec_layer_error(display_name@, error@),
{
    let mut text = String::from_str("Layer '");
    text.append(display_name);
    text.append("': ");
    text.append(error);
    text
}

/// The status after points were edited, given the first parse error among the visible
/// layers: that error, marked as a points parse error; or, when there is none, the idle
/// status in place of a stale points parse error; any other status stays.
pub fn refreshed_status_after_points_edit(
    status: Option<StatusMessage>,
    first_error: Option<String>,
    has_fit_result: bool,
) -> (refreshed: Option<StatusMessage>)
    ensures
        match first_error {
            Some(error) => refreshed matches Some(StatusMessage::Error(m)) && m@
                == POINTS_PARSE_ERROR_PREFIX@ + error@,
            None => match status {
                Some(StatusMessage::Error(m)) if spec_starts_with(m@, POINTS_PARSE_ERROR_PREFIX@) =>
                    refreshed matches Some(s) && (if has_fit_result {
                    s is FitCompleted
                } else {
                    s is Ready
                }),
                _ => refreshed == status,
            },
        },
{
    if let Some(error) = first_error {
        let mut message = String::from_str(POINTS_PARSE_ERROR_PREFIX);
        message.append(error.as_str());
        return Some(StatusMessage::Error(message));
    }
    let stale = match &status {
        Some(StatusMessage::Error(message)) => starts_with(message.as_str(), POINTS_PARSE_ERROR_PREFIX),
        _ => false,
    };
    if stale {
        Some(idle_status_after_points_edit(has_fit_result))
    } else {
        status
    }
}

} // verus!
