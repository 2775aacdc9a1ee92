use curve_fit::family::CurveFamily;
use curve_fit::hints::{points_input_hint, tool_usage_hint, undo_tooltip};
use curve_fit::i18n::{
    family_label, model_choice_label, optimizer_method_label, tool_label, tr, PlotTool, UiLanguage,
};
use curve_fit::model_catalog::{ModelChoice, ModelGroup, ParamInitMethod};
use curve_fit::optimizer::{OptimizerMethod, OptimizerPreset};
use curve_fit::status::StatusMessage;

#[test]
fn ui_language_from_locale_tag_uses_russian_for_ru_tags() {
    assert_eq!(UiLanguage::from_locale_tag("ru"), UiLanguage::Russian);
    assert_eq!(UiLanguage::from_locale_tag("ru-RU"), UiLanguage::Russian);
    assert_eq!(
        UiLanguage::from_locale_tag("ru_RU.UTF-8"),
        UiLanguage::Russian
    );
    assert_eq!(
        UiLanguage::from_locale_tag("ru-RU,en-US;q=0.9"),
        UiLanguage::Russian
    );
}

#[test]
fn ui_language_from_locale_tag_uses_english_for_other_tags() {
    assert_eq!(UiLanguage::from_locale_tag("en-US"), UiLanguage::English);
    assert_eq!(
        UiLanguage::from_locale_tag("de_DE.UTF-8"),
        UiLanguage::English
    );
    assert_eq!(UiLanguage::from_locale_tag(""), UiLanguage::English);
}

#[test]
fn locale_tags_are_trimmed_and_case_insensitive() {
    assert_eq!(UiLanguage::from_locale_tag("  RU@latin "), UiLanguage::Russian);
    assert_eq!(UiLanguage::from_locale_tag("rus"), UiLanguage::English);
    assert_eq!(UiLanguage::from_optional_locale_tag(None), UiLanguage::English);
    assert_eq!(UiLanguage::from_optional_locale_tag(Some("Ru:x".to_string())), UiLanguage::Russian);
    assert_eq!(UiLanguage::Russian.native_name(), "Русский");
}

#[test]
fn labels_follow_the_language() {
    assert_eq!(tr(UiLanguage::Russian, "a", "б"), "б");
    assert_eq!(tool_label(UiLanguage::English, PlotTool::Spray), "Spray");
    assert_eq!(tool_label(UiLanguage::Russian, PlotTool::Navigation), "Навигация");
    assert_eq!(model_choice_label(UiLanguage::English, ModelChoice::MonotoneCubicSpline), "Monotone Cubic (PCHIP)");
    assert_eq!(family_label(UiLanguage::Russian, CurveFamily::Quartic), "4-й степени");
    assert_eq!(family_label(UiLanguage::English, CurveFamily::Emg), "EMG");
    assert_eq!(optimizer_method_label(UiLanguage::Russian, OptimizerMethod::NelderMead), "Нелдер-Мид");
    assert!(PlotTool::Navigation.is_navigation());
    assert!(PlotTool::Dotted.is_continuous_point_editing());
    assert!(!PlotTool::SinglePoint.is_continuous_point_editing());
}

#[test]
fn hints_are_chosen_by_language_and_tool() {
    assert!(points_input_hint(UiLanguage::English).starts_with("Input format\n"));
    assert!(tool_usage_hint(UiLanguage::Russian, PlotTool::Eraser).starts_with("Ластик"));
    assert_eq!(undo_tooltip(UiLanguage::English), "Undo\n- Revert last points edit");
}

#[test]
fn status_text_shows_errors_verbatim() {
    assert_eq!(StatusMessage::Ready.text(UiLanguage::English), "Ready");
    assert_eq!(StatusMessage::FitCompleted.text(UiLanguage::Russian), "Фитинг завершен");
    let error = StatusMessage::Error("boom".to_string());
    assert!(error.is_error());
    assert_eq!(error.text(UiLanguage::Russian), "boom");
    assert!(!StatusMessage::Cleared.is_error());
}

#[test]
fn selector_lists_follow_the_interface_order() {
    assert_eq!(UiLanguage::all(), vec![UiLanguage::English, UiLanguage::Russian]);
    assert_eq!(
        ParamInitMethod::all(),
        vec![ParamInitMethod::Default, ParamInitMethod::DataBased, ParamInitMethod::Randomized]
    );
    assert_eq!(
        OptimizerPreset::all(),
        vec![OptimizerPreset::Fast, OptimizerPreset::Balanced, OptimizerPreset::Precise]
    );
    assert_eq!(ModelGroup::all().len(), 5);
    assert_eq!(ModelGroup::all()[4], ModelGroup::Spline);
}
