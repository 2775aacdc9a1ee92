//! Interface languages and the texts shown for the library's enums.

use vstd::prelude::*;
use crate::family::{spec_label, CurveFamily};
use crate::model_catalog::{
    ModelChoice, ModelGroup, OptimizationLossMetric, ParamInitMethod, SplineDuplicateXPolicy,
    SplineExtrapolation, SplineKnotStrategy,
};
use crate::optimizer::{OptimizerMethod, OptimizerPreset};
use crate::text::{spec_trim, str_to_chars, trim_chars};

verus! {

/// The interface language.
#[derive(Debug, Clone, Copy, PartialEq, Eq, Structural)]
pub enum UiLanguage {
    English,
    Russian,
}

impl UiLanguage {
    /// The languages of the interface.
    pub fn all() -> (languages: Vec<UiLanguage>)
        ensures
            languages@ == seq![UiLanguage::English, UiLanguage::Russian],
    {
        let languages = vec![UiLanguage::English, UiLanguage::Russian];
        proof {
            assert(languages@ =~= seq![UiLanguage::English, UiLanguage::Russian]);
        }
        languages
    }
}

/// The English or the Russian text, by language.
pub open spec fn spec_tr(language: UiLanguage, en: Seq<char>, ru: Seq<char>) -> Seq<char> {
    match language {
        UiLanguage::English => en,
        UiLanguage::Russian => ru,
    }
}

/// The English or the Russian text, by language.
pub fn tr(language: UiLanguage, en: &'static str, ru: &'static str) -> (text: &'static str)
    ensures
        text@ == spec_tr(language, en@, ru@),
{
    match language {
        UiLanguage::English => en,
        UiLanguage::Russian => ru,
    }
}

/// A separator between the parts of a locale tag.
pub open spec fn spec_is_locale_separator(c: char) -> bool {
    c == '-' || c == '_' || c == '.' || c == '@' || c == ':' || c == ','
}

/// The end of the first part of a locale tag read from `i`.
pub open spec fn locale_part_end(s: Seq<char>, i: int) -> int
    decreases s.len() - i,
{
    if 0 <= i < s.len() && !spec_is_locale_separator(s[i]) {
        locale_part_end(s, i + 1)
    } else {
        i
    }
}

/// The language part of a locale tag: the trimmed tag up to its first separator.
pub open spec fn spec_primary_language(locale: Seq<char>) -> Seq<char> {
    let trimmed = spec_trim(locale);
    trimmed.subrange(0, locale_part_end(trimmed, 0))
}

/// Whether a language part is `ru` in any ASCII case.
pub open spec fn spec_is_russian_tag(tag: Seq<char>) -> bool {
    tag.len() == 2 && (tag[0] == 'r' || tag[0] == 'R') && (tag[1] == 'u' || tag[1] == 'U')
}

proof fn lemma_locale_part_end_bounds(s: Seq<char>, i: int)
    requires
        0 <= i <= s.len(),
    ensures
        i <= locale_part_end(s, i) <= s.len(),
    decreases s.len() - i,
{
    if i < s.len() && !spec_is_locale_separator(s[i]) {
        lemma_locale_part_end_bounds(s, i + 1);
    }
}

/// The system locale: `sys_locale::get_locale`. What it returns depends on the machine, so
/// nothing is claimed of it.
#[verifier::external_body]
fn system_locale_tag() -> Option<String> {
    sys_locale::get_locale()
}

/// The language of an optional locale tag: Russian when its language part is `ru` in any
/// case, English otherwise or when there is no tag.
pub open spec fn spec_language_of_tag(locale: Option<Seq<char>>) -> UiLanguage {
    match locale {
        Some(tag) => if spec_is_russian_tag(spec_primary_language(tag)) {
            UiLanguage::Russian
        } else {
            UiLanguage::English
        },
        None => UiLanguage::English,
    }
}

impl UiLanguage {
    /// The language's name in itself.
    pub fn native_name(self) -> (name: &'static str)
        ensures
            name@ == (match self {
                UiLanguage::English => "English"@,
                UiLanguage::Russian => "Русский"@,
            }),
    {
        match self {
            UiLanguage::English => "English",
            UiLanguage::Russian => "Русский",
        }
    }

    /// The language of a locale tag such as `ru-RU` or `de_DE.UTF-8`: Russian when the
    /// language part is `ru` in any case, English otherwise.
    pub fn from_locale_tag(locale: &str) -> (language: UiLanguage)
        ensures
            language == (if spec_is_russian_tag(spec_primary_language(locale@)) {
                UiLanguage::Russian
            } else {
                UiLanguage::English
            }),
    {
        let chars = str_to_chars(locale);
        let trimmed = trim_chars(chars.as_slice());
        let mut end: usize = 0;
        while end < trimmed.len() && !(trimmed[end] == '-' || trimmed[end] == '_' || trimmed[end]
            == '.' || trimmed[end] == '@' || trimmed[end] == ':' || trimmed[end] == ',')
            invariant
                end <= trimmed.len(),
                locale_part_end(trimmed@, end as int) == locale_part_end(trimmed@, 0),
            decreases trimmed.len() - end,
        {
            end = end + 1;
        }
        proof {
            lemma_locale_part_end_bounds(trimmed@, 0);
        }
        if end == 2 && (trimmed[0] == 'r' || trimmed[0] == 'R') && (trimmed[1] == 'u' || trimmed[1]
            == 'U') {
            UiLanguage::Russian
        } else {
            UiLanguage::English
        }
    }

    /// The language of an optional locale tag, English when there is none.
    pub fn from_optional_locale_tag(locale: Option<String>) -> (language: UiLanguage)
        ensures
            language == spec_language_of_tag(match locale {
                Some(tag) => Some(tag@),
                None => None,
            }),
    {
        match locale {
            Some(tag) => UiLanguage::from_locale_tag(tag.as_str()),
            None => UiLanguage::English,
        }
    }

    /// The language of the system locale, English when it is unknown. Which locale that is
    /// depends on the machine.
    pub fn from_system_locale() -> (language: UiLanguage)
        ensures
            exists|locale: Option<Seq<char>>| language == spec_language_of_tag(locale),
    {
        UiLanguage::from_optional_locale_tag(system_locale_tag())
    }
}

/// How the pointer edits points on the plot.
#[derive(Debug, Clone, Copy, PartialEq, Eq, Structural)]
pub enum PlotTool {
    /// Pan and zoom only.
    Navigation,
    SinglePoint,
    Dotted,
    Spray,
    Eraser,
}

impl PlotTool {
    /// Whether the tool only navigates the plot.
    pub fn is_navigation(self) -> (result: bool)
        ensures
            result == (self == PlotTool::Navigation),
    {
        matches!(self, PlotTool::Navigation)
    }

    /// Whether the tool keeps editing while the button is held.
    pub fn is_continuous_point_editing(self) -> (result: bool)
        ensures
            result == (self == PlotTool::Dotted || self == PlotTool::Spray || self == PlotTool::Eraser),
    {
        matches!(self, PlotTool::Dotted | PlotTool::Spray | PlotTool::Eraser)
    }
}

/// How the spray spreads points.
#[derive(Debug, Clone, Copy, PartialEq, Eq, Structural)]
pub enum SprayBrush {
    Uniform,
    Gaussian,
}

/// The name of a plot tool.
pub open spec fn spec_tool_label(language: UiLanguage, tool: PlotTool) -> Seq<char> {
    match (language, tool) {
        (UiLanguage::English, PlotTool::Navigation) => "None"@,
        (UiLanguage::English, PlotTool::SinglePoint) => "Single point"@,
        (UiLanguage::English, PlotTool::Dotted) => "Dotted"@,
        (UiLanguage::English, PlotTool::Spray) => "Spray"@,
        (UiLanguage::English, PlotTool::Eraser) => "Eraser"@,
        (UiLanguage::Russian, PlotTool::Navigation) => "Навигация"@,
        (UiLanguage::Russian, PlotTool::SinglePoint) => "Одиночная точка"@,
        (UiLanguage::Russian, PlotTool::Dotted) => "Пунктир"@,
        (UiLanguage::Russian, PlotTool::Spray) => "Спрей"@,
        (UiLanguage::Russian, PlotTool::Eraser) => "Ластик"@,
    }
}

/// The name of a plot tool.
pub fn tool_label(language: UiLanguage, tool: PlotTool) -> (text: &'static str)
    ensures
        text@ == spec_tool_label(language, tool),
{
    match (language, tool) {
        (UiLanguage::English, PlotTool::Navigation) => "None",
        (UiLanguage::English, PlotTool::SinglePoint) => "Single point",
        (UiLanguage::English, PlotTool::Dotted) => "Dotted",
        (UiLanguage::English, PlotTool::Spray) => "Spray",
        (UiLanguage::English, PlotTool::Eraser) => "Eraser",
        (UiLanguage::Russian, PlotTool::Navigation) => "Навигация",
        (UiLanguage::Russian, PlotTool::SinglePoint) => "Одиночная точка",
        (UiLanguage::Russian, PlotTool::Dotted) => "Пунктир",
        (UiLanguage::Russian, PlotTool::Spray) => "Спрей",
        (UiLanguage::Russian, PlotTool::Eraser) => "Ластик",
    }
}

/// The name of a spray brush.
pub open spec fn spec_spray_brush_label(language: UiLanguage, brush: SprayBrush) -> Seq<char> {
    match (language, brush) {
        (UiLanguage::English, SprayBrush::Uniform) => "Uniform"@,
        (UiLanguage::English, SprayBrush::Gaussian) => "Gaussian"@,
        (UiLanguage::Russian, SprayBrush::Uniform) => "Равномерная"@,
        (UiLanguage::Russian, SprayBrush::Gaussian) => "Гауссова"@,
    }
}

/// The name of a spray brush.
pub fn spray_brush_label(language: UiLanguage, brush: SprayBrush) -> (text: &'static str)
    ensures
        text@ == spec_spray_brush_label(language, brush),
{
    match (language, brush) {
        (UiLanguage::English, SprayBrush::Uniform) => "Uniform",
        (UiLanguage::English, SprayBrush::Gaussian) => "Gaussian",
        (UiLanguage::Russian, SprayBrush::Uniform) => "Равномерная",
        (UiLanguage::Russian, SprayBrush::Gaussian) => "Гауссова",
    }
}

/// The name of a knot strategy.
pub open spec fn spec_spline_knot_strategy_label(language: UiLanguage, strategy: SplineKnotStrategy) -> Seq<char> {
    match (language, strategy) {
        (UiLanguage::English, SplineKnotStrategy::BinMean) => "Bin mean"@,
        (UiLanguage::English, SplineKnotStrategy::BinMedian) => "Bin median"@,
        (UiLanguage::Russian, SplineKnotStrategy::BinMean) => "Среднее по окнам"@,
        (UiLanguage::Russian, SplineKnotStrategy::BinMedian) => "Медиана по окнам"@,
    }
}

/// The name of a knot strategy.
pub fn spline_knot_strategy_label(language: UiLanguage, strategy: SplineKnotStrategy) -> (text: &'static str)
    ensures
        text@ == spec_spline_knot_strategy_label(language, strategy),
{
    match (language, strategy) {
        (UiLanguage::English, SplineKnotStrategy::BinMean) => "Bin mean",
        (UiLanguage::English, SplineKnotStrategy::BinMedian) => "Bin median",
        (UiLanguage::Russian, SplineKnotStrategy::BinMean) => "Среднее по окнам",
        (UiLanguage::Russian, SplineKnotStrategy::BinMedian) => "Медиана по окнам",
    }
}

/// The name of an extrapolation mode.
pub open spec fn spec_spline_extrapolation_label(language: UiLanguage, extrapolation: SplineExtrapolation) -> Seq<char> {
    match (language, extrapolation) {
        (UiLanguage::English, SplineExtrapolation::Clamp) => "Clamp to edge"@,
        (UiLanguage::English, SplineExtrapolation::Linear) => "Linear"@,
        (UiLanguage::Russian, SplineExtrapolation::Clamp) => "Фиксация на краю"@,
        (UiLanguage::Russian, SplineExtrapolation::Linear) => "Линейная"@,
    }
}

/// The name of an extrapolation mode.
pub fn spline_extrapolation_label(language: UiLanguage, extrapolation: SplineExtrapolation) -> (text: &'static str)
    ensures
        text@ == spec_spline_extrapolation_label(language, extrapolation),
{
    match (language, extrapolation) {
        (UiLanguage::English, SplineExtrapolation::Clamp) => "Clamp to edge",
        (UiLanguage::English, SplineExtrapolation::Linear) => "Linear",
        (UiLanguage::Russian, SplineExtrapolation::Clamp) => "Фиксация на краю",
        (UiLanguage::Russian, SplineExtrapolation::Linear) => "Линейная",
    }
}

/// The short name of a loss metric (the same in every language).
pub open spec fn spec_optimization_loss_metric_label(language: UiLanguage, metric: OptimizationLossMetric) -> Seq<char> {
    match metric {
        OptimizationLossMetric::Mse => "MSE"@,
        OptimizationLossMetric::Mae => "MAE"@,
        OptimizationLossMetric::SoftL1 => "soft_l1"@,
    }
}

/// The short name of a loss metric (the same in every language).
pub fn optimization_loss_metric_label(language: UiLanguage, metric: OptimizationLossMetric) -> (text: &'static str)
    ensures
        text@ == spec_optimization_loss_metric_label(language, metric),
{
    match metric {
        OptimizationLossMetric::Mse => "MSE",
        OptimizationLossMetric::Mae => "MAE",
        OptimizationLossMetric::SoftL1 => "soft_l1",
    }
}

/// The English name of an initialization method.
pub open spec fn spec_param_init_method_name_en(method: ParamInitMethod) -> Seq<char> {
    match method {
        ParamInitMethod::Default => "Default"@,
        ParamInitMethod::DataBased => "Data-based"@,
        ParamInitMethod::Randomized => "Randomized"@,
    }
}

/// The English name of an initialization method.
pub fn param_init_method_name_en(method: ParamInitMethod) -> (text: &'static str)
    ensures
        text@ == spec_param_init_method_name_en(method),
{
    match method {
        ParamInitMethod::Default => "Default",
        ParamInitMethod::DataBased => "Data-based",
        ParamInitMethod::Randomized => "Randomized",
    }
}

/// The name of an initialization method.
pub open spec fn spec_param_init_method_label(language: UiLanguage, method: ParamInitMethod) -> Seq<char> {
    match (language, method) {
        (UiLanguage::English, ParamInitMethod::Default) => "Default"@,
        (UiLanguage::English, ParamInitMethod::DataBased) => "Data-based"@,
        (UiLanguage::English, ParamInitMethod::Randomized) => "Randomized"@,
        (UiLanguage::Russian, ParamInitMethod::Default) => "По умолчанию"@,
        (UiLanguage::Russian, ParamInitMethod::DataBased) => "По данным"@,
        (UiLanguage::Russian, ParamInitMethod::Randomized) => "Случайно"@,
    }
}

/// The name of an initialization method.
pub fn param_init_method_label(language: UiLanguage, method: ParamInitMethod) -> (text: &'static str)
    ensures
        text@ == spec_param_init_method_label(language, method),
{
    match (language, method) {
        (UiLanguage::English, ParamInitMethod::Default) => "Default",
        (UiLanguage::English, ParamInitMethod::DataBased) => "Data-based",
        (UiLanguage::English, ParamInitMethod::Randomized) => "Randomized",
        (UiLanguage::Russian, ParamInitMethod::Default) => "По умолчанию",
        (UiLanguage::Russian, ParamInitMethod::DataBased) => "По данным",
        (UiLanguage::Russian, ParamInitMethod::Randomized) => "Случайно",
    }
}

/// The name of an initialization method where it is unavailable.
pub open spec fn spec_param_init_method_disabled_label(language: UiLanguage, method: ParamInitMethod) -> Seq<char> {
    match (language, method) {
        (UiLanguage::English, ParamInitMethod::Default) => "Default"@,
        (UiLanguage::English, ParamInitMethod::DataBased) => "Data-based (Polynomial/Logistic/Gaussian/Exponential (Basic)/Power only)"@,
        (UiLanguage::English, ParamInitMethod::Randomized) => "Randomized (Polynomial/Logistic/Gaussian/Exponential (Basic)/Power only)"@,
        (UiLanguage::Russian, ParamInitMethod::Default) => "По умолчанию"@,
        (UiLanguage::Russian, ParamInitMethod::DataBased) => "По данным (только Polynomial/Logistic/Gaussian/Exponential (Basic)/Power)"@,
        (UiLanguage::Russian, ParamInitMethod::Randomized) => "Случайно (только Polynomial/Logistic/Gaussian/Exponential (Basic)/Power)"@,
    }
}

/// The name of an initialization method where it is unavailable.
pub fn param_init_method_disabled_label(language: UiLanguage, method: ParamInitMethod) -> (text: &'static str)
    ensures
        text@ == spec_param_init_method_disabled_label(language, method),
{
    match (language, method) {
        (UiLanguage::English, ParamInitMethod::Default) => "Default",
        (UiLanguage::English, ParamInitMethod::DataBased) => "Data-based (Polynomial/Logistic/Gaussian/Exponential (Basic)/Power only)",
        (UiLanguage::English, ParamInitMethod::Randomized) => "Randomized (Polynomial/Logistic/Gaussian/Exponential (Basic)/Power only)",
        (UiLanguage::Russian, ParamInitMethod::Default) => "По умолчанию",
        (UiLanguage::Russian, ParamInitMethod::DataBased) => "По данным (только Polynomial/Logistic/Gaussian/Exponential (Basic)/Power)",
        (UiLanguage::Russian, ParamInitMethod::Randomized) => "Случайно (только Polynomial/Logistic/Gaussian/Exponential (Basic)/Power)",
    }
}

/// The name of a model choice.
pub open spec fn spec_model_choice_label(language: UiLanguage, model: ModelChoice) -> Seq<char> {
    match (language, model) {
        (UiLanguage::English, ModelChoice::Polynomial) => "Polynomial"@,
        (UiLanguage::English, ModelChoice::Arrhenius) => "Arrhenius"@,
        (UiLanguage::English, ModelChoice::Inverse) => "Inverse"@,
        (UiLanguage::English, ModelChoice::Logistic) => "Logistic"@,
        (UiLanguage::English, ModelChoice::Gompertz) => "Gompertz"@,
        (UiLanguage::English, ModelChoice::BiExponential) => "Bi-Exponential"@,
        (UiLanguage::English, ModelChoice::DampedSinusoid) => "Damped Sinusoid"@,
        (UiLanguage::English, ModelChoice::Lorentzian) => "Lorentzian"@,
        (UiLanguage::English, ModelChoice::NaturalLog) => "Natural Log"@,
        (UiLanguage::English, ModelChoice::FourPl) => "4PL"@,
        (UiLanguage::English, ModelChoice::FivePl) => "5PL"@,
        (UiLanguage::English, ModelChoice::MichaelisMenten) => "Michaelis-Menten"@,
        (UiLanguage::English, ModelChoice::ExponentialBasic) => "Exponential (Basic)"@,
        (UiLanguage::English, ModelChoice::ExponentialLinear) => "Exponential + Linear"@,
        (UiLanguage::English, ModelChoice::ExponentialHalfLife) => "Exponential (Half-life)"@,
        (UiLanguage::English, ModelChoice::FallingExponential) => "Falling Exponential"@,
        (UiLanguage::English, ModelChoice::HyperbolicTangent) => "Hyperbolic Tangent"@,
        (UiLanguage::English, ModelChoice::ArctangentStep) => "Arctangent Step"@,
        (UiLanguage::English, ModelChoice::Softplus) => "Softplus"@,
        (UiLanguage::English, ModelChoice::Power) => "Power"@,
        (UiLanguage::English, ModelChoice::Gaussian) => "Gaussian"@,
        (UiLanguage::English, ModelChoice::Rational) => "Rational"@,
        (UiLanguage::English, ModelChoice::Emg) => "EMG"@,
        (UiLanguage::English, ModelChoice::PseudoVoigt) => "Pseudo-Voigt"@,
        (UiLanguage::English, ModelChoice::LinearSpline) => "Linear Spline"@,
        (UiLanguage::English, ModelChoice::MonotoneCubicSpline) => "Monotone Cubic (PCHIP)"@,
        (UiLanguage::English, ModelChoice::NaturalCubicSpline) => "Natural Cubic Spline"@,
        (UiLanguage::English, ModelChoice::AkimaSpline) => "Akima Cubic Spline"@,
        (UiLanguage::Russian, ModelChoice::Polynomial) => "Полином"@,
        (UiLanguage::Russian, ModelChoice::Arrhenius) => "Аррениус"@,
        (UiLanguage::Russian, ModelChoice::Inverse) => "Обратная"@,
        (UiLanguage::Russian, ModelChoice::Logistic) => "Логистическая"@,
        (UiLanguage::Russian, ModelChoice::Gompertz) => "Gompertz"@,
        (UiLanguage::Russian, ModelChoice::BiExponential) => "Bi-Exponential"@,
        (UiLanguage::Russian, ModelChoice::DampedSinusoid) => "Damped Sinusoid"@,
        (UiLanguage::Russian, ModelChoice::Lorentzian) => "Лоренциан"@,
        (UiLanguage::Russian, ModelChoice::NaturalLog) => "Натуральный логарифм"@,
        (UiLanguage::Russian, ModelChoice::FourPl) => "4PL"@,
        (UiLanguage::Russian, ModelChoice::FivePl) => "5PL"@,
        (UiLanguage::Russian, ModelChoice::MichaelisMenten) => "Михаэлис-Ментен"@,
        (UiLanguage::Russian, ModelChoice::ExponentialBasic) => "Экспонента (базовая)"@,
        (UiLanguage::Russian, ModelChoice::ExponentialLinear) => "Экспонента + линейный тренд"@,
        (UiLanguage::Russian, ModelChoice::ExponentialHalfLife) => "Экспонента (полураспад)"@,
        (UiLanguage::Russian, ModelChoice::FallingExponential) => "Падающая экспонента"@,
        (UiLanguage::Russian, ModelChoice::HyperbolicTangent) => "Гиперболический тангенс"@,
        (UiLanguage::Russian, ModelChoice::ArctangentStep) => "Арктангенс переход"@,
        (UiLanguage::Russian, ModelChoice::Softplus) => "Softplus"@,
        (UiLanguage::Russian, ModelChoice::Power) => "Степенная"@,
        (UiLanguage::Russian, ModelChoice::Gaussian) => "Гаусс"@,
        (UiLanguage::Russian, ModelChoice::Rational) => "Rational"@,
        (UiLanguage::Russian, ModelChoice::Emg) => "EMG"@,
        (UiLanguage::Russian, ModelChoice::PseudoVoigt) => "Pseudo-Voigt"@,
        (UiLanguage::Russian, ModelChoice::LinearSpline) => "Линейный сплайн"@,
        (UiLanguage::Russian, ModelChoice::MonotoneCubicSpline) => "Монотонный кубический (PCHIP)"@,
        (UiLanguage::Russian, ModelChoice::NaturalCubicSpline) => "Натуральный кубический сплайн"@,
        (UiLanguage::Russian, ModelChoice::AkimaSpline) => "Кубический сплайн Акимы"@,
    }
}

/// The name of a model choice.
pub fn model_choice_label(language: UiLanguage, model: ModelChoice) -> (text: &'static str)
    ensures
        text@ == spec_model_choice_label(language, model),
{
    match (language, model) {
        (UiLanguage::English, ModelChoice::Polynomial) => "Polynomial",
        (UiLanguage::English, ModelChoice::Arrhenius) => "Arrhenius",
        (UiLanguage::English, ModelChoice::Inverse) => "Inverse",
        (UiLanguage::English, ModelChoice::Logistic) => "Logistic",
        (UiLanguage::English, ModelChoice::Gompertz) => "Gompertz",
        (UiLanguage::English, ModelChoice::BiExponential) => "Bi-Exponential",
        (UiLanguage::English, ModelChoice::DampedSinusoid) => "Damped Sinusoid",
        (UiLanguage::English, ModelChoice::Lorentzian) => "Lorentzian",
        (UiLanguage::English, ModelChoice::NaturalLog) => "Natural Log",
        (UiLanguage::English, ModelChoice::FourPl) => "4PL",
        (UiLanguage::English, ModelChoice::FivePl) => "5PL",
        (UiLanguage::English, ModelChoice::MichaelisMenten) => "Michaelis-Menten",
        (UiLanguage::English, ModelChoice::ExponentialBasic) => "Exponential (Basic)",
        (UiLanguage::English, ModelChoice::ExponentialLinear) => "Exponential + Linear",
        (UiLanguage::English, ModelChoice::ExponentialHalfLife) => "Exponential (Half-life)",
        (UiLanguage::English, ModelChoice::FallingExponential) => "Falling Exponential",
        (UiLanguage::English, ModelChoice::HyperbolicTangent) => "Hyperbolic Tangent",
        (UiLanguage::English, ModelChoice::ArctangentStep) => "Arctangent Step",
        (UiLanguage::English, ModelChoice::Softplus) => "Softplus",
        (UiLanguage::English, ModelChoice::Power) => "Power",
        (UiLanguage::English, ModelChoice::Gaussian) => "Gaussian",
        (UiLanguage::English, ModelChoice::Rational) => "Rational",
        (UiLanguage::English, ModelChoice::Emg) => "EMG",
        (UiLanguage::English, ModelChoice::PseudoVoigt) => "Pseudo-Voigt",
        (UiLanguage::English, ModelChoice::LinearSpline) => "Linear Spline",
        (UiLanguage::English, ModelChoice::MonotoneCubicSpline) => "Monotone Cubic (PCHIP)",
        (UiLanguage::English, ModelChoice::NaturalCubicSpline) => "Natural Cubic Spline",
        (UiLanguage::English, ModelChoice::AkimaSpline) => "Akima Cubic Spline",
        (UiLanguage::Russian, ModelChoice::Polynomial) => "Полином",
        (UiLanguage::Russian, ModelChoice::Arrhenius) => "Аррениус",
        (UiLanguage::Russian, ModelChoice::Inverse) => "Обратная",
        (UiLanguage::Russian, ModelChoice::Logistic) => "Логистическая",
        (UiLanguage::Russian, ModelChoice::Gompertz) => "Gompertz",
        (UiLanguage::Russian, ModelChoice::BiExponential) => "Bi-Exponential",
        (UiLanguage::Russian, ModelChoice::DampedSinusoid) => "Damped Sinusoid",
        (UiLanguage::Russian, ModelChoice::Lorentzian) => "Лоренциан",
        (UiLanguage::Russian, ModelChoice::NaturalLog) => "Натуральный логарифм",
        (UiLanguage::Russian, ModelChoice::FourPl) => "4PL",
        (UiLanguage::Russian, ModelChoice::FivePl) => "5PL",
        (UiLanguage::Russian, ModelChoice::MichaelisMenten) => "Михаэлис-Ментен",
        (UiLanguage::Russian, ModelChoice::ExponentialBasic) => "Экспонента (базовая)",
        (UiLanguage::Russian, ModelChoice::ExponentialLinear) => "Экспонента + линейный тренд",
        (UiLanguage::Russian, ModelChoice::ExponentialHalfLife) => "Экспонента (полураспад)",
        (UiLanguage::Russian, ModelChoice::FallingExponential) => "Падающая экспонента",
        (UiLanguage::Russian, ModelChoice::HyperbolicTangent) => "Гиперболический тангенс",
        (UiLanguage::Russian, ModelChoice::ArctangentStep) => "Арктангенс переход",
        (UiLanguage::Russian, ModelChoice::Softplus) => "Softplus",
        (UiLanguage::Russian, ModelChoice::Power) => "Степенная",
        (UiLanguage::Russian, ModelChoice::Gaussian) => "Гаусс",
        (UiLanguage::Russian, ModelChoice::Rational) => "Rational",
        (UiLanguage::Russian, ModelChoice::Emg) => "EMG",
        (UiLanguage::Russian, ModelChoice::PseudoVoigt) => "Pseudo-Voigt",
        (UiLanguage::Russian, ModelChoice::LinearSpline) => "Линейный сплайн",
        (UiLanguage::Russian, ModelChoice::MonotoneCubicSpline) => "Монотонный кубический (PCHIP)",
        (UiLanguage::Russian, ModelChoice::NaturalCubicSpline) => "Натуральный кубический сплайн",
        (UiLanguage::Russian, ModelChoice::AkimaSpline) => "Кубический сплайн Акимы",
    }
}

/// The name of a curve family.
pub open spec fn spec_family_label(language: UiLanguage, family: CurveFamily) -> Seq<char> {
    match (language, family) {
        (UiLanguage::English, CurveFamily::Linear) => "Linear"@,
        (UiLanguage::English, CurveFamily::Quadratic) => "Quadratic"@,
        (UiLanguage::English, CurveFamily::Cubic) => "Cubic"@,
        (UiLanguage::English, CurveFamily::Quartic) => "Quartic"@,
        (UiLanguage::English, CurveFamily::Quintic) => "Quintic"@,
        (UiLanguage::English, CurveFamily::Sextic) => "Sextic"@,
        (UiLanguage::English, CurveFamily::Septic) => "Septic"@,
        (UiLanguage::English, CurveFamily::Octic) => "Octic"@,
        (UiLanguage::English, CurveFamily::Nonic) => "Nonic"@,
        (UiLanguage::English, CurveFamily::Arrhenius) => "Arrhenius"@,
        (UiLanguage::English, CurveFamily::Inverse) => "Inverse"@,
        (UiLanguage::English, CurveFamily::Logistic) => "Logistic"@,
        (UiLanguage::English, CurveFamily::Gompertz) => "Gompertz"@,
        (UiLanguage::English, CurveFamily::BiExponential) => "Bi-Exponential"@,
        (UiLanguage::English, CurveFamily::DampedSinusoid) => "Damped Sinusoid"@,
        (UiLanguage::English, CurveFamily::Lorentzian) => "Lorentzian"@,
        (UiLanguage::English, CurveFamily::NaturalLog) => "Natural Log"@,
        (UiLanguage::English, CurveFamily::FourPl) => "4PL"@,
        (UiLanguage::English, CurveFamily::FivePl) => "5PL"@,
        (UiLanguage::English, CurveFamily::MichaelisMenten) => "Michaelis-Menten"@,
        (UiLanguage::English, CurveFamily::ExponentialBasic) => "Exponential (Basic)"@,
        (UiLanguage::English, CurveFamily::ExponentialLinear) => "Exponential + Linear"@,
        (UiLanguage::English, CurveFamily::ExponentialHalfLife) => "Exponential (Half-life)"@,
        (UiLanguage::English, CurveFamily::FallingExponential) => "Falling Exponential"@,
        (UiLanguage::English, CurveFamily::HyperbolicTangent) => "Hyperbolic Tangent"@,
        (UiLanguage::English, CurveFamily::ArctangentStep) => "Arctangent Step"@,
        (UiLanguage::English, CurveFamily::Softplus) => "Softplus"@,
        (UiLanguage::English, CurveFamily::Power) => "Power"@,
        (UiLanguage::English, CurveFamily::Gaussian) => "Gaussian"@,
        (UiLanguage::English, CurveFamily::Rational11) => "Rational (1/1)"@,
        (UiLanguage::English, CurveFamily::Rational22) => "Rational (2/2)"@,
        (UiLanguage::English, CurveFamily::Rational33) => "Rational (3/3)"@,
        (UiLanguage::English, CurveFamily::Rational44) => "Rational (4/4)"@,
        (UiLanguage::English, CurveFamily::Rational55) => "Rational (5/5)"@,
        (UiLanguage::English, CurveFamily::Emg) => "EMG"@,
        (UiLanguage::English, CurveFamily::PseudoVoigt) => "Pseudo-Voigt"@,
        (UiLanguage::English, CurveFamily::SaturatingTrendBasis1) => "Saturating Trend Basis (1 tau)"@,
        (UiLanguage::English, CurveFamily::SaturatingTrendBasis2) => "Saturating Trend Basis (2 tau)"@,
        (UiLanguage::English, CurveFamily::SaturatingTrendBasis3) => "Saturating Trend Basis (3 tau)"@,
        (UiLanguage::English, CurveFamily::SaturatingTrendBasis4) => "Saturating Trend Basis (4 tau)"@,
        (UiLanguage::English, CurveFamily::SaturatingTrendBasis5) => "Saturating Trend Basis (5 tau)"@,
        (UiLanguage::English, CurveFamily::SaturatingTrendBasis6) => "Saturating Trend Basis (6 tau)"@,
        (UiLanguage::Russian, CurveFamily::Linear) => "Линейная"@,
        (UiLanguage::Russian, CurveFamily::Quadratic) => "Квадратичная"@,
        (UiLanguage::Russian, CurveFamily::Cubic) => "Кубическая"@,
        (UiLanguage::Russian, CurveFamily::Quartic) => "4-й степени"@,
        (UiLanguage::Russian, CurveFamily::Quintic) => "5-й степени"@,
        (UiLanguage::Russian, CurveFamily::Sextic) => "6-й степени"@,
        (UiLanguage::Russian, CurveFamily::Septic) => "7-й степени"@,
        (UiLanguage::Russian, CurveFamily::Octic) => "8-й степени"@,
        (UiLanguage::Russian, CurveFamily::Nonic) => "9-й степени"@,
        (UiLanguage::Russian, CurveFamily::Arrhenius) => "Аррениус"@,
        (UiLanguage::Russian, CurveFamily::Inverse) => "Обратная"@,
        (UiLanguage::Russian, CurveFamily::Logistic) => "Логистическая"@,
        (UiLanguage::Russian, CurveFamily::Gompertz) => "Gompertz"@,
        (UiLanguage::Russian, CurveFamily::BiExponential) => "Bi-Exponential"@,
        (UiLanguage::Russian, CurveFamily::DampedSinusoid) => "Damped Sinusoid"@,
        (UiLanguage::Russian, CurveFamily::Lorentzian) => "Лоренциан"@,
        (UiLanguage::Russian, CurveFamily::NaturalLog) => "Натуральный логарифм"@,
        (UiLanguage::Russian, CurveFamily::FourPl) => "4PL"@,
        (UiLanguage::Russian, CurveFamily::FivePl) => "5PL"@,
        (UiLanguage::Russian, CurveFamily::MichaelisMenten) => "Михаэлис-Ментен"@,
        (UiLanguage::Russian, CurveFamily::ExponentialBasic) => "Экспонента (базовая)"@,
        (UiLanguage::Russian, CurveFamily::ExponentialLinear) => "Экспонента + линейный тренд"@,
        (UiLanguage::Russian, CurveFamily::ExponentialHalfLife) => "Экспонента (полураспад)"@,
        (UiLanguage::Russian, CurveFamily::FallingExponential) => "Падающая экспонента"@,
        (UiLanguage::Russian, CurveFamily::HyperbolicTangent) => "Гиперболический тангенс"@,
        (UiLanguage::Russian, CurveFamily::ArctangentStep) => "Арктангенс переход"@,
        (UiLanguage::Russian, CurveFamily::Softplus) => "Softplus"@,
        (UiLanguage::Russian, CurveFamily::Power) => "Степенная"@,
        (UiLanguage::Russian, CurveFamily::Gaussian) => "Гаусс"@,
        (UiLanguage::Russian, CurveFamily::Rational11) => "Rational (1/1)"@,
        (UiLanguage::Russian, CurveFamily::Rational22) => "Rational (2/2)"@,
        (UiLanguage::Russian, CurveFamily::Rational33) => "Rational (3/3)"@,
        (UiLanguage::Russian, CurveFamily::Rational44) => "Rational (4/4)"@,
        (UiLanguage::Russian, CurveFamily::Rational55) => "Rational (5/5)"@,
        (UiLanguage::Russian, CurveFamily::Emg) => "EMG"@,
        (UiLanguage::Russian, CurveFamily::PseudoVoigt) => "Pseudo-Voigt"@,
        (UiLanguage::Russian, CurveFamily::SaturatingTrendBasis1) => "Saturating Trend Basis (1 tau)"@,
        (UiLanguage::Russian, CurveFamily::SaturatingTrendBasis2) => "Saturating Trend Basis (2 tau)"@,
        (UiLanguage::Russian, CurveFamily::SaturatingTrendBasis3) => "Saturating Trend Basis (3 tau)"@,
        (UiLanguage::Russian, CurveFamily::SaturatingTrendBasis4) => "Saturating Trend Basis (4 tau)"@,
        (UiLanguage::Russian, CurveFamily::SaturatingTrendBasis5) => "Saturating Trend Basis (5 tau)"@,
        (UiLanguage::Russian, CurveFamily::SaturatingTrendBasis6) => "Saturating Trend Basis (6 tau)"@,
    }
}

/// The name of a curve family.
pub fn family_label(language: UiLanguage, family: CurveFamily) -> (text: &'static str)
    ensures
        text@ == spec_family_label(language, family),
{
    match (language, family) {
        (UiLanguage::English, CurveFamily::Linear) => "Linear",
        (UiLanguage::English, CurveFamily::Quadratic) => "Quadratic",
        (UiLanguage::English, CurveFamily::Cubic) => "Cubic",
        (UiLanguage::English, CurveFamily::Quartic) => "Quartic",
        (UiLanguage::English, CurveFamily::Quintic) => "Quintic",
        (UiLanguage::English, CurveFamily::Sextic) => "Sextic",
        (UiLanguage::English, CurveFamily::Septic) => "Septic",
        (UiLanguage::English, CurveFamily::Octic) => "Octic",
        (UiLanguage::English, CurveFamily::Nonic) => "Nonic",
        (UiLanguage::English, CurveFamily::Arrhenius) => "Arrhenius",
        (UiLanguage::English, CurveFamily::Inverse) => "Inverse",
        (UiLanguage::English, CurveFamily::Logistic) => "Logistic",
        (UiLanguage::English, CurveFamily::Gompertz) => "Gompertz",
        (UiLanguage::English, CurveFamily::BiExponential) => "Bi-Exponential",
        (UiLanguage::English, CurveFamily::DampedSinusoid) => "Damped Sinusoid",
        (UiLanguage::English, CurveFamily::Lorentzian) => "Lorentzian",
        (UiLanguage::English, CurveFamily::NaturalLog) => "Natural Log",
        (UiLanguage::English, CurveFamily::FourPl) => "4PL",
        (UiLanguage::English, CurveFamily::FivePl) => "5PL",
        (UiLanguage::English, CurveFamily::MichaelisMenten) => "Michaelis-Menten",
        (UiLanguage::English, CurveFamily::ExponentialBasic) => "Exponential (Basic)",
        (UiLanguage::English, CurveFamily::ExponentialLinear) => "Exponential + Linear",
        (UiLanguage::English, CurveFamily::ExponentialHalfLife) => "Exponential (Half-life)",
        (UiLanguage::English, CurveFamily::FallingExponential) => "Falling Exponential",
        (UiLanguage::English, CurveFamily::HyperbolicTangent) => "Hyperbolic Tangent",
        (UiLanguage::English, CurveFamily::ArctangentStep) => "Arctangent Step",
        (UiLanguage::English, CurveFamily::Softplus) => "Softplus",
        (UiLanguage::English, CurveFamily::Power) => "Power",
        (UiLanguage::English, CurveFamily::Gaussian) => "Gaussian",
        (UiLanguage::English, CurveFamily::Rational11) => "Rational (1/1)",
        (UiLanguage::English, CurveFamily::Rational22) => "Rational (2/2)",
        (UiLanguage::English, CurveFamily::Rational33) => "Rational (3/3)",
        (UiLanguage::English, CurveFamily::Rational44) => "Rational (4/4)",
        (UiLanguage::English, CurveFamily::Rational55) => "Rational (5/5)",
        (UiLanguage::English, CurveFamily::Emg) => "EMG",
        (UiLanguage::English, CurveFamily::PseudoVoigt) => "Pseudo-Voigt",
        (UiLanguage::English, CurveFamily::SaturatingTrendBasis1) => "Saturating Trend Basis (1 tau)",
        (UiLanguage::English, CurveFamily::SaturatingTrendBasis2) => "Saturating Trend Basis (2 tau)",
        (UiLanguage::English, CurveFamily::SaturatingTrendBasis3) => "Saturating Trend Basis (3 tau)",
        (UiLanguage::English, CurveFamily::SaturatingTrendBasis4) => "Saturating Trend Basis (4 tau)",
        (UiLanguage::English, CurveFamily::SaturatingTrendBasis5) => "Saturating Trend Basis (5 tau)",
        (UiLanguage::English, CurveFamily::SaturatingTrendBasis6) => "Saturating Trend Basis (6 tau)",
        (UiLanguage::Russian, CurveFamily::Linear) => "Линейная",
        (UiLanguage::Russian, CurveFamily::Quadratic) => "Квадратичная",
        (UiLanguage::Russian, CurveFamily::Cubic) => "Кубическая",
        (UiLanguage::Russian, CurveFamily::Quartic) => "4-й степени",
        (UiLanguage::Russian, CurveFamily::Quintic) => "5-й степени",
        (UiLanguage::Russian, CurveFamily::Sextic) => "6-й степени",
        (UiLanguage::Russian, CurveFamily::Septic) => "7-й степени",
        (UiLanguage::Russian, CurveFamily::Octic) => "8-й степени",
        (UiLanguage::Russian, CurveFamily::Nonic) => "9-й степени",
        (UiLanguage::Russian, CurveFamily::Arrhenius) => "Аррениус",
        (UiLanguage::Russian, CurveFamily::Inverse) => "Обратная",
        (UiLanguage::Russian, CurveFamily::Logistic) => "Логистическая",
        (UiLanguage::Russian, CurveFamily::Gompertz) => "Gompertz",
        (UiLanguage::Russian, CurveFamily::BiExponential) => "Bi-Exponential",
        (UiLanguage::Russian, CurveFamily::DampedSinusoid) => "Damped Sinusoid",
        (UiLanguage::Russian, CurveFamily::Lorentzian) => "Лоренциан",
        (UiLanguage::Russian, CurveFamily::NaturalLog) => "Натуральный логарифм",
        (UiLanguage::Russian, CurveFamily::FourPl) => "4PL",
        (UiLanguage::Russian, CurveFamily::FivePl) => "5PL",
        (UiLanguage::Russian, CurveFamily::MichaelisMenten) => "Михаэлис-Ментен",
        (UiLanguage::Russian, CurveFamily::ExponentialBasic) => "Экспонента (базовая)",
        (UiLanguage::Russian, CurveFamily::ExponentialLinear) => "Экспонента + линейный тренд",
        (UiLanguage::Russian, CurveFamily::ExponentialHalfLife) => "Экспонента (полураспад)",
        (UiLanguage::Russian, CurveFamily::FallingExponential) => "Падающая экспонента",
        (UiLanguage::Russian, CurveFamily::HyperbolicTangent) => "Гиперболический тангенс",
        (UiLanguage::Russian, CurveFamily::ArctangentStep) => "Арктангенс переход",
        (UiLanguage::Russian, CurveFamily::Softplus) => "Softplus",
        (UiLanguage::Russian, CurveFamily::Power) => "Степенная",
        (UiLanguage::Russian, CurveFamily::Gaussian) => "Гаусс",
        (UiLanguage::Russian, CurveFamily::Rational11) => "Rational (1/1)",
        (UiLanguage::Russian, CurveFamily::Rational22) => "Rational (2/2)",
        (UiLanguage::Russian, CurveFamily::Rational33) => "Rational (3/3)",
        (UiLanguage::Russian, CurveFamily::Rational44) => "Rational (4/4)",
        (UiLanguage::Russian, CurveFamily::Rational55) => "Rational (5/5)",
        (UiLanguage::Russian, CurveFamily::Emg) => "EMG",
        (UiLanguage::Russian, CurveFamily::PseudoVoigt) => "Pseudo-Voigt",
        (UiLanguage::Russian, CurveFamily::SaturatingTrendBasis1) => "Saturating Trend Basis (1 tau)",
        (UiLanguage::Russian, CurveFamily::SaturatingTrendBasis2) => "Saturating Trend Basis (2 tau)",
        (UiLanguage::Russian, CurveFamily::SaturatingTrendBasis3) => "Saturating Trend Basis (3 tau)",
        (UiLanguage::Russian, CurveFamily::SaturatingTrendBasis4) => "Saturating Trend Basis (4 tau)",
        (UiLanguage::Russian, CurveFamily::SaturatingTrendBasis5) => "Saturating Trend Basis (5 tau)",
        (UiLanguage::Russian, CurveFamily::SaturatingTrendBasis6) => "Saturating Trend Basis (6 tau)",
    }
}

/// The name of a model group.
pub open spec fn spec_model_group_label(language: UiLanguage, group: ModelGroup) -> Seq<char> {
    match (language, group) {
        (UiLanguage::English, ModelGroup::Polynomial) => "Polynomial"@,
        (UiLanguage::English, ModelGroup::ParametricGeneral) => "Parametric (General)"@,
        (UiLanguage::English, ModelGroup::ParametricSigmoid) => "Parametric (Sigmoid/Step)"@,
        (UiLanguage::English, ModelGroup::ParametricPeak) => "Parametric (Peak)"@,
        (UiLanguage::English, ModelGroup::Spline) => "Spline"@,
        (UiLanguage::Russian, ModelGroup::Polynomial) => "Полиномы"@,
        (UiLanguage::Russian, ModelGroup::ParametricGeneral) => "Параметрические (общие)"@,
        (UiLanguage::Russian, ModelGroup::ParametricSigmoid) => "Параметрические (сигмоиды/переходы)"@,
        (UiLanguage::Russian, ModelGroup::ParametricPeak) => "Параметрические (пики)"@,
        (UiLanguage::Russian, ModelGroup::Spline) => "Сплайны"@,
    }
}

/// The name of a model group.
pub fn model_group_label(language: UiLanguage, group: ModelGroup) -> (text: &'static str)
    ensures
        text@ == spec_model_group_label(language, group),
{
    match (language, group) {
        (UiLanguage::English, ModelGroup::Polynomial) => "Polynomial",
        (UiLanguage::English, ModelGroup::ParametricGeneral) => "Parametric (General)",
        (UiLanguage::English, ModelGroup::ParametricSigmoid) => "Parametric (Sigmoid/Step)",
        (UiLanguage::English, ModelGroup::ParametricPeak) => "Parametric (Peak)",
        (UiLanguage::English, ModelGroup::Spline) => "Spline",
        (UiLanguage::Russian, ModelGroup::Polynomial) => "Полиномы",
        (UiLanguage::Russian, ModelGroup::ParametricGeneral) => "Параметрические (общие)",
        (UiLanguage::Russian, ModelGroup::ParametricSigmoid) => "Параметрические (сигмоиды/переходы)",
        (UiLanguage::Russian, ModelGroup::ParametricPeak) => "Параметрические (пики)",
        (UiLanguage::Russian, ModelGroup::Spline) => "Сплайны",
    }
}

/// The name of a duplicate-`x` policy.
pub open spec fn spec_spline_duplicate_policy_label(language: UiLanguage, policy: SplineDuplicateXPolicy) -> Seq<char> {
    match (language, policy) {
        (UiLanguage::English, SplineDuplicateXPolicy::Error) => "Error on duplicates"@,
        (UiLanguage::English, SplineDuplicateXPolicy::MeanY) => "Merge by mean(y)"@,
        (UiLanguage::English, SplineDuplicateXPolicy::MedianY) => "Merge by median(y)"@,
        (UiLanguage::English, SplineDuplicateXPolicy::FirstY) => "Keep first y"@,
        (UiLanguage::Russian, SplineDuplicateXPolicy::Error) => "Ошибка при дублях"@,
        (UiLanguage::Russian, SplineDuplicateXPolicy::MeanY) => "Слить по mean(y)"@,
        (UiLanguage::Russian, SplineDuplicateXPolicy::MedianY) => "Слить по median(y)"@,
        (UiLanguage::Russian, SplineDuplicateXPolicy::FirstY) => "Оставить первый y"@,
    }
}

/// The name of a duplicate-`x` policy.
pub fn spline_duplicate_policy_label(language: UiLanguage, policy: SplineDuplicateXPolicy) -> (text: &'static str)
    ensures
        text@ == spec_spline_duplicate_policy_label(language, policy),
{
    match (language, policy) {
        (UiLanguage::English, SplineDuplicateXPolicy::Error) => "Error on duplicates",
        (UiLanguage::English, SplineDuplicateXPolicy::MeanY) => "Merge by mean(y)",
        (UiLanguage::English, SplineDuplicateXPolicy::MedianY) => "Merge by median(y)",
        (UiLanguage::English, SplineDuplicateXPolicy::FirstY) => "Keep first y",
        (UiLanguage::Russian, SplineDuplicateXPolicy::Error) => "Ошибка при дублях",
        (UiLanguage::Russian, SplineDuplicateXPolicy::MeanY) => "Слить по mean(y)",
        (UiLanguage::Russian, SplineDuplicateXPolicy::MedianY) => "Слить по median(y)",
        (UiLanguage::Russian, SplineDuplicateXPolicy::FirstY) => "Оставить первый y",
    }
}

/// The name of an optimization method.
pub open spec fn spec_optimizer_method_label(language: UiLanguage, method: OptimizerMethod) -> Seq<char> {
    match (language, method) {
        (UiLanguage::English, OptimizerMethod::Lbfgs) => "LBFGS"@,
        (UiLanguage::English, OptimizerMethod::NelderMead) => "Nelder-Mead"@,
        (UiLanguage::English, OptimizerMethod::SteepestDescent) => "Steepest Descent"@,
        (UiLanguage::English, OptimizerMethod::NewtonCg) => "Newton-CG"@,
        (UiLanguage::English, OptimizerMethod::Sgd) => "SGD"@,
        (UiLanguage::English, OptimizerMethod::Adam) => "Adam"@,
        (UiLanguage::Russian, OptimizerMethod::Lbfgs) => "LBFGS"@,
        (UiLanguage::Russian, OptimizerMethod::NelderMead) => "Нелдер-Мид"@,
        (UiLanguage::Russian, OptimizerMethod::SteepestDescent) => "Наискорейший спуск"@,
        (UiLanguage::Russian, OptimizerMethod::NewtonCg) => "Newton-CG"@,
        (UiLanguage::Russian, OptimizerMethod::Sgd) => "SGD"@,
        (UiLanguage::Russian, OptimizerMethod::Adam) => "Adam"@,
    }
}

/// The name of an optimization method.
pub fn optimizer_method_label(language: UiLanguage, method: OptimizerMethod) -> (text: &'static str)
    ensures
        text@ == spec_optimizer_method_label(language, method),
{
    match (language, method) {
        (UiLanguage::English, OptimizerMethod::Lbfgs) => "LBFGS",
        (UiLanguage::English, OptimizerMethod::NelderMead) => "Nelder-Mead",
        (UiLanguage::English, OptimizerMethod::SteepestDescent) => "Steepest Descent",
        (UiLanguage::English, OptimizerMethod::NewtonCg) => "Newton-CG",
        (UiLanguage::English, OptimizerMethod::Sgd) => "SGD",
        (UiLanguage::English, OptimizerMethod::Adam) => "Adam",
        (UiLanguage::Russian, OptimizerMethod::Lbfgs) => "LBFGS",
        (UiLanguage::Russian, OptimizerMethod::NelderMead) => "Нелдер-Мид",
        (UiLanguage::Russian, OptimizerMethod::SteepestDescent) => "Наискорейший спуск",
        (UiLanguage::Russian, OptimizerMethod::NewtonCg) => "Newton-CG",
        (UiLanguage::Russian, OptimizerMethod::Sgd) => "SGD",
        (UiLanguage::Russian, OptimizerMethod::Adam) => "Adam",
    }
}

/// The name of an optimizer preset.
pub open spec fn spec_optimizer_preset_label(language: UiLanguage, preset: OptimizerPreset) -> Seq<char> {
    match (language, preset) {
        (UiLanguage::English, OptimizerPreset::Fast) => "Fast"@,
        (UiLanguage::English, OptimizerPreset::Balanced) => "Balanced"@,
        (UiLanguage::English, OptimizerPreset::Precise) => "Precise"@,
        (UiLanguage::English, OptimizerPreset::Custom) => "Custom"@,
        (UiLanguage::Russian, OptimizerPreset::Fast) => "Быстрый"@,
        (UiLanguage::Russian, OptimizerPreset::Balanced) => "Сбалансированный"@,
        (UiLanguage::Russian, OptimizerPreset::Precise) => "Точный"@,
        (UiLanguage::Russian, OptimizerPreset::Custom) => "Произвольный"@,
    }
}

/// The name of an optimizer preset.
pub fn optimizer_preset_label(language: UiLanguage, preset: OptimizerPreset) -> (text: &'static str)
    ensures
        text@ == spec_optimizer_preset_label(language, preset),
{
    match (language, preset) {
        (UiLanguage::English, OptimizerPreset::Fast) => "Fast",
        (UiLanguage::English, OptimizerPreset::Balanced) => "Balanced",
        (UiLanguage::English, OptimizerPreset::Precise) => "Precise",
        (UiLanguage::English, OptimizerPreset::Custom) => "Custom",
        (UiLanguage::Russian, OptimizerPreset::Fast) => "Быстрый",
        (UiLanguage::Russian, OptimizerPreset::Balanced) => "Сбалансированный",
        (UiLanguage::Russian, OptimizerPreset::Precise) => "Точный",
        (UiLanguage::Russian, OptimizerPreset::Custom) => "Произвольный",
    }
}


} // verus!
