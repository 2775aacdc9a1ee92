//! Identifiers and names written into exported fit results, and the export file name.

use vstd::prelude::*;
use crate::family::{spec_label, CurveFamily};
use crate::i18n::{model_choice_label, optimizer_method_label, spec_model_choice_label, spec_optimizer_method_label, UiLanguage};
use crate::model_catalog::{ModelChoice, OptimizationLossMetric, ResolvedModel, SplineFamilyKind};
use crate::optimizer::{spec_method_id, OptimizerMethod};
use crate::text::{push_char, str_to_chars};

verus! {

/// An identifier and a display name, as exported.
#[derive(Debug, Clone, Copy, PartialEq, Eq)]
pub struct FitExportNamedId {
    pub id: &'static str,
    pub name: &'static str,
}

/// Whether the rounding of reported metrics is on, and to how many decimal places.
#[derive(Debug, Clone, Copy, PartialEq, Eq, Structural)]
pub enum MetricQuantization {
    Disabled,
    Enabled(u8),
}

/// The exported number of decimal places, absent when rounding is off.
pub fn metric_quantization_decimal_places(metric_quantization: MetricQuantization) -> (places: Option<u8>)
    ensures
        places == (match metric_quantization {
            MetricQuantization::Disabled => None,
            MetricQuantization::Enabled(p) => Some(p),
        }),
{
    match metric_quantization {
        MetricQuantization::Disabled => None,
        MetricQuantization::Enabled(decimal_places) => Some(decimal_places),
    }
}

/// The exported identifier of a curve family.
pub open spec fn spec_curve_family_id(family: CurveFamily) -> Seq<char> {
    match family {
        CurveFamily::Linear => "linear"@,
        CurveFamily::Quadratic => "quadratic"@,
        CurveFamily::Cubic => "cubic"@,
        CurveFamily::Quartic => "quartic"@,
        CurveFamily::Quintic => "quintic"@,
        CurveFamily::Sextic => "sextic"@,
        CurveFamily::Septic => "septic"@,
        CurveFamily::Octic => "octic"@,
        CurveFamily::Nonic => "nonic"@,
        CurveFamily::Arrhenius => "arrhenius"@,
        CurveFamily::Inverse => "inverse"@,
        CurveFamily::Logistic => "logistic"@,
        CurveFamily::Gompertz => "gompertz"@,
        CurveFamily::BiExponential => "bi_exponential"@,
        CurveFamily::DampedSinusoid => "damped_sinusoid"@,
        CurveFamily::Lorentzian => "lorentzian"@,
        CurveFamily::NaturalLog => "natural_log"@,
        CurveFamily::FourPl => "four_pl"@,
        CurveFamily::FivePl => "five_pl"@,
        CurveFamily::MichaelisMenten => "michaelis_menten"@,
        CurveFamily::ExponentialBasic => "exponential_basic"@,
        CurveFamily::ExponentialLinear => "exponential_linear"@,
        CurveFamily::ExponentialHalfLife => "exponential_half_life"@,
        CurveFamily::FallingExponential => "falling_exponential"@,
        CurveFamily::HyperbolicTangent => "hyperbolic_tangent"@,
        CurveFamily::ArctangentStep => "arctangent_step"@,
        CurveFamily::Softplus => "softplus"@,
        CurveFamily::Power => "power"@,
        CurveFamily::Gaussian => "gaussian"@,
        CurveFamily::Rational11 => "rational_11"@,
        CurveFamily::Rational22 => "rational_22"@,
        CurveFamily::Rational33 => "rational_33"@,
        CurveFamily::Rational44 => "rational_44"@,
        CurveFamily::Rational55 => "rational_55"@,
        CurveFamily::Emg => "emg"@,
        CurveFamily::PseudoVoigt => "pseudo_voigt"@,
        CurveFamily::SaturatingTrendBasis1 => "saturating_trend_basis_1"@,
        CurveFamily::SaturatingTrendBasis2 => "saturating_trend_basis_2"@,
        CurveFamily::SaturatingTrendBasis3 => "saturating_trend_basis_3"@,
        CurveFamily::SaturatingTrendBasis4 => "saturating_trend_basis_4"@,
        CurveFamily::SaturatingTrendBasis5 => "saturating_trend_basis_5"@,
        CurveFamily::SaturatingTrendBasis6 => "saturating_trend_basis_6"@,
    }
}

/// The exported identifier of a curve family.
pub fn curve_family_id(family: CurveFamily) -> (text: &'static str)
    ensures
        text@ == spec_curve_family_id(family),
{
    match family {
        CurveFamily::Linear => "linear",
        CurveFamily::Quadratic => "quadratic",
        CurveFamily::Cubic => "cubic",
        CurveFamily::Quartic => "quartic",
        CurveFamily::Quintic => "quintic",
        CurveFamily::Sextic => "sextic",
        CurveFamily::Septic => "septic",
        CurveFamily::Octic => "octic",
        CurveFamily::Nonic => "nonic",
        CurveFamily::Arrhenius => "arrhenius",
        CurveFamily::Inverse => "inverse",
        CurveFamily::Logistic => "logistic",
        CurveFamily::Gompertz => "gompertz",
        CurveFamily::BiExponential => "bi_exponential",
        CurveFamily::DampedSinusoid => "damped_sinusoid",
        CurveFamily::Lorentzian => "lorentzian",
        CurveFamily::NaturalLog => "natural_log",
        CurveFamily::FourPl => "four_pl",
        CurveFamily::FivePl => "five_pl",
        CurveFamily::MichaelisMenten => "michaelis_menten",
        CurveFamily::ExponentialBasic => "exponential_basic",
        CurveFamily::ExponentialLinear => "exponential_linear",
        CurveFamily::ExponentialHalfLife => "exponential_half_life",
        CurveFamily::FallingExponential => "falling_exponential",
        CurveFamily::HyperbolicTangent => "hyperbolic_tangent",
        CurveFamily::ArctangentStep => "arctangent_step",
        CurveFamily::Softplus => "softplus",
        CurveFamily::Power => "power",
        CurveFamily::Gaussian => "gaussian",
        CurveFamily::Rational11 => "rational_11",
        CurveFamily::Rational22 => "rational_22",
        CurveFamily::Rational33 => "rational_33",
        CurveFamily::Rational44 => "rational_44",
        CurveFamily::Rational55 => "rational_55",
        CurveFamily::Emg => "emg",
        CurveFamily::PseudoVoigt => "pseudo_voigt",
        CurveFamily::SaturatingTrendBasis1 => "saturating_trend_basis_1",
        CurveFamily::SaturatingTrendBasis2 => "saturating_trend_basis_2",
        CurveFamily::SaturatingTrendBasis3 => "saturating_trend_basis_3",
        CurveFamily::SaturatingTrendBasis4 => "saturating_trend_basis_4",
        CurveFamily::SaturatingTrendBasis5 => "saturating_trend_basis_5",
        CurveFamily::SaturatingTrendBasis6 => "saturating_trend_basis_6",
    }
}

/// The exported identifier of a model choice; the rational models share one.
pub open spec fn spec_model_choice_id(model: ModelChoice) -> Seq<char> {
    match model {
        ModelChoice::Polynomial => "polynomial"@,
        ModelChoice::Arrhenius => "arrhenius"@,
        ModelChoice::Inverse => "inverse"@,
        ModelChoice::Logistic => "logistic"@,
        ModelChoice::Gompertz => "gompertz"@,
        ModelChoice::BiExponential => "bi_exponential"@,
        ModelChoice::DampedSinusoid => "damped_sinusoid"@,
        ModelChoice::Lorentzian => "lorentzian"@,
        ModelChoice::NaturalLog => "natural_log"@,
        ModelChoice::FourPl => "four_pl"@,
        ModelChoice::FivePl => "five_pl"@,
        ModelChoice::MichaelisMenten => "michaelis_menten"@,
        ModelChoice::ExponentialBasic => "exponential_basic"@,
        ModelChoice::ExponentialLinear => "exponential_linear"@,
        ModelChoice::ExponentialHalfLife => "exponential_half_life"@,
        ModelChoice::FallingExponential => "falling_exponential"@,
        ModelChoice::HyperbolicTangent => "hyperbolic_tangent"@,
        ModelChoice::ArctangentStep => "arctangent_step"@,
        ModelChoice::Softplus => "softplus"@,
        ModelChoice::Power => "power"@,
        ModelChoice::Gaussian => "gaussian"@,
        ModelChoice::Rational => "rational"@,
        ModelChoice::Emg => "emg"@,
        ModelChoice::PseudoVoigt => "pseudo_voigt"@,
        ModelChoice::LinearSpline => "linear_spline"@,
        ModelChoice::MonotoneCubicSpline => "monotone_cubic_spline"@,
        ModelChoice::NaturalCubicSpline => "natural_cubic_spline"@,
        ModelChoice::AkimaSpline => "akima_spline"@,
    }
}

/// The exported identifier of a model choice; the rational models share one.
pub fn model_choice_id(model: ModelChoice) -> (text: &'static str)
    ensures
        text@ == spec_model_choice_id(model),
{
    match model {
        ModelChoice::Polynomial => "polynomial",
        ModelChoice::Arrhenius => "arrhenius",
        ModelChoice::Inverse => "inverse",
        ModelChoice::Logistic => "logistic",
        ModelChoice::Gompertz => "gompertz",
        ModelChoice::BiExponential => "bi_exponential",
        ModelChoice::DampedSinusoid => "damped_sinusoid",
        ModelChoice::Lorentzian => "lorentzian",
        ModelChoice::NaturalLog => "natural_log",
        ModelChoice::FourPl => "four_pl",
        ModelChoice::FivePl => "five_pl",
        ModelChoice::MichaelisMenten => "michaelis_menten",
        ModelChoice::ExponentialBasic => "exponential_basic",
        ModelChoice::ExponentialLinear => "exponential_linear",
        ModelChoice::ExponentialHalfLife => "exponential_half_life",
        ModelChoice::FallingExponential => "falling_exponential",
        ModelChoice::HyperbolicTangent => "hyperbolic_tangent",
        ModelChoice::ArctangentStep => "arctangent_step",
        ModelChoice::Softplus => "softplus",
        ModelChoice::Power => "power",
        ModelChoice::Gaussian => "gaussian",
        ModelChoice::Rational => "rational",
        ModelChoice::Emg => "emg",
        ModelChoice::PseudoVoigt => "pseudo_voigt",
        ModelChoice::LinearSpline => "linear_spline",
        ModelChoice::MonotoneCubicSpline => "monotone_cubic_spline",
        ModelChoice::NaturalCubicSpline => "natural_cubic_spline",
        ModelChoice::AkimaSpline => "akima_spline",
    }
}

/// The exported identifier of a spline kind.
pub open spec fn spec_spline_family_id(family: SplineFamilyKind) -> Seq<char> {
    match family {
        SplineFamilyKind::Linear => "linear_spline"@,
        SplineFamilyKind::MonotoneCubic => "monotone_cubic_spline"@,
        SplineFamilyKind::NaturalCubic => "natural_cubic_spline"@,
        SplineFamilyKind::Akima => "akima_spline"@,
    }
}

/// The exported identifier of a spline kind.
pub fn spline_family_id(family: SplineFamilyKind) -> (text: &'static str)
    ensures
        text@ == spec_spline_family_id(family),
{
    match family {
        SplineFamilyKind::Linear => "linear_spline",
        SplineFamilyKind::MonotoneCubic => "monotone_cubic_spline",
        SplineFamilyKind::NaturalCubic => "natural_cubic_spline",
        SplineFamilyKind::Akima => "akima_spline",
    }
}

/// The exported name of a spline kind.
pub open spec fn spec_spline_family_name(family: SplineFamilyKind) -> Seq<char> {
    match family {
        SplineFamilyKind::Linear => "Linear Spline"@,
        SplineFamilyKind::MonotoneCubic => "Monotone Cubic Spline"@,
        SplineFamilyKind::NaturalCubic => "Natural Cubic Spline"@,
        SplineFamilyKind::Akima => "Akima Spline"@,
    }
}

/// The exported name of a spline kind.
pub fn spline_family_name(family: SplineFamilyKind) -> (text: &'static str)
    ensures
        text@ == spec_spline_family_name(family),
{
    match family {
        SplineFamilyKind::Linear => "Linear Spline",
        SplineFamilyKind::MonotoneCubic => "Monotone Cubic Spline",
        SplineFamilyKind::NaturalCubic => "Natural Cubic Spline",
        SplineFamilyKind::Akima => "Akima Spline",
    }
}

/// The exported name of a loss metric.
pub open spec fn spec_objective_metric_name(metric: OptimizationLossMetric) -> Seq<char> {
    match metric {
        OptimizationLossMetric::Mse => "Mean Squared Error (L2)"@,
        OptimizationLossMetric::Mae => "Mean Absolute Error (L1)"@,
        OptimizationLossMetric::SoftL1 => "Soft L1"@,
    }
}

/// The exported name of a loss metric.
pub fn objective_metric_name(metric: OptimizationLossMetric) -> (text: &'static str)
    ensures
        text@ == spec_objective_metric_name(metric),
{
    match metric {
        OptimizationLossMetric::Mse => "Mean Squared Error (L2)",
        OptimizationLossMetric::Mae => "Mean Absolute Error (L1)",
        OptimizationLossMetric::SoftL1 => "Soft L1",
    }
}

/// The exported identifier of an optimization method.
pub fn optimizer_method_id(method: OptimizerMethod) -> (id: &'static str)
    ensures
        id@ == spec_method_id(method),
{
    method.id()
}

/// The exported identifier and name of a curve family.
pub fn curve_family_ref(family: CurveFamily) -> (named: FitExportNamedId)
    ensures
        named.id@ == spec_curve_family_id(family),
        named.name@ == spec_label(family),
{
    FitExportNamedId { id: curve_family_id(family), name: family.label() }
}

/// The exported identifier and name of a spline kind.
pub fn spline_family_ref(family: SplineFamilyKind) -> (named: FitExportNamedId)
    ensures
        named.id@ == spec_spline_family_id(family),
        named.name@ == spec_spline_family_name(family),
{
    FitExportNamedId { id: spline_family_id(family), name: spline_family_name(family) }
}

/// The exported identifier and English name of a model choice.
pub fn model_choice_ref(model: ModelChoice) -> (named: FitExportNamedId)
    ensures
        named.id@ == spec_model_choice_id(model),
        named.name@ == spec_model_choice_label(UiLanguage::English, model),
{
    FitExportNamedId { id: model_choice_id(model), name: model_choice_label(UiLanguage::English, model) }
}

/// The spline kind of a resolved spline model.
pub open spec fn spline_kind_of(model: ResolvedModel) -> SplineFamilyKind {
    match model {
        ResolvedModel::MonotoneCubicSpline => SplineFamilyKind::MonotoneCubic,
        ResolvedModel::NaturalCubicSpline => SplineFamilyKind::NaturalCubic,
        ResolvedModel::AkimaSpline => SplineFamilyKind::Akima,
        _ => SplineFamilyKind::Linear,
    }
}

/// The exported identifier and name of the model that was fitted: its family, or its
/// spline kind.
pub fn resolved_model_ref(model: ResolvedModel) -> (named: FitExportNamedId)
    ensures
        match model {
            ResolvedModel::Parametric(family) => named.id@ == spec_curve_family_id(family)
                && named.name@ == spec_label(family),
            _ => named.id@ == spec_spline_family_id(spline_kind_of(model)) && named.name@
                == spec_spline_family_name(spline_kind_of(model)),
        },
{
    match model {
        ResolvedModel::Parametric(family) => curve_family_ref(family),
        ResolvedModel::LinearSpline => spline_family_ref(SplineFamilyKind::Linear),
        ResolvedModel::MonotoneCubicSpline => spline_family_ref(SplineFamilyKind::MonotoneCubic),
        ResolvedModel::NaturalCubicSpline => spline_family_ref(SplineFamilyKind::NaturalCubic),
        ResolvedModel::AkimaSpline => spline_family_ref(SplineFamilyKind::Akima),
    }
}

/// The exported identifier and English name of an optimization method.
pub fn optimizer_method_ref(method: OptimizerMethod) -> (named: FitExportNamedId)
    ensures
        named.id@ == spec_method_id(method),
        named.name@ == spec_optimizer_method_label(UiLanguage::English, method),
{
    FitExportNamedId {
        id: optimizer_method_id(method),
        name: optimizer_method_label(UiLanguage::English, method),
    }
}

/// The exported identifier and name of a loss metric.
pub fn objective_metric_ref(metric: OptimizationLossMetric) -> (named: FitExportNamedId)
    ensures
        named.id@ == (match metric {
            OptimizationLossMetric::Mse => "mse"@,
            OptimizationLossMetric::Mae => "mae"@,
            OptimizationLossMetric::SoftL1 => "soft_l1"@,
        }),
        named.name@ == spec_objective_metric_name(metric),
{
    FitExportNamedId { id: metric.id(), name: objective_metric_name(metric) }
}

/// The export file name for a timestamp: `fit-result-` and the timestamp with every `:`
/// made a `-`, then `.json`.
pub open spec fn spec_fit_export_file_name(timestamp: Seq<char>) -> Seq<char> {
    "fit-result-"@ + timestamp.map_values(|c: char| if c == ':' { '-' } else { c }) + ".json"@
}

/// The export file name for a timestamp.
pub fn fit_export_file_name(timestamp: &str) -> (name: String)
    ensures
        name@ == spec_fit_export_file_name(timestamp@),
{
    let chars = str_to_chars(timestamp);
    let mut name = String::from_str("fit-result-");
    let ghost start = name@;
    let mut k: usize = 0;
    while k < chars.len()
        invariant
            k <= chars.len(),
            chars@ == timestamp@,
            name@ == start + chars@.take(k as int).map_values(|c: char| if c == ':' { '-' } else { c }),
        decreases chars.len() - k,
    {
        let c = chars[k];
        push_char(&mut name, if c == ':' { '-' } else { c });
        proof {
            assert(chars@.take(k + 1).map_values(|c: char| if c == ':' { '-' } else { c }) =~= chars@.take(
                k as int,
            ).map_values(|c: char| if c == ':' { '-' } else { c }).push(if c == ':' { '-' } else { c }));
        }
        k = k + 1;
    }
    proof {
        assert(chars@.take(chars.len() as int) =~= chars@);
    }
    name.append(".json");
    name
}

/// Whether a character is an ASCII digit.
pub open spec fn is_digit_char(c: char) -> bool {
    '0' <= c && c <= '9'
}

/// Whether `year` is a year as RFC 3339 output writes it: four digits, or, outside
/// `0..=9999`, a sign followed by at least four digits.
pub open spec fn is_rfc3339_year(year: Seq<char>) -> bool {
    ||| year.len() == 4 && forall|i: int| 0 <= i < 4 ==> is_digit_char(#[trigger] year[i])
    ||| year.len() >= 5 && (year[0] == '+' || year[0] == '-') && forall|i: int|
        1 <= i < year.len() ==> is_digit_char(#[trigger] year[i])
}

/// Whether `tail` is what follows the year in an RFC 3339 UTC time with milliseconds:
/// `-MM-DDTHH:MM:SS.mmmZ`, each letter a digit.
pub open spec fn is_rfc3339_utc_millis_tail(tail: Seq<char>) -> bool {
    &&& tail.len() == 20
    &&& tail[0] == '-' && tail[3] == '-' && tail[6] == 'T' && tail[9] == ':' && tail[12] == ':'
    &&& tail[15] == '.' && tail[19] == 'Z'
    &&& forall|i: int|
        0 <= i < 20 && i != 0 && i != 3 && i != 6 && i != 9 && i != 12 && i != 15 && i != 19
            ==> is_digit_char(#[trigger] tail[i])
}

/// Whether `text` is an RFC 3339 UTC time with milliseconds and `Z`, such as
/// `2018-01-26T18:30:09.453Z`.
pub open spec fn is_rfc3339_utc_millis(text: Seq<char>) -> bool {
    &&& text.len() >= 24
    &&& is_rfc3339_year(text.take(text.len() - 20))
    &&& is_rfc3339_utc_millis_tail(text.skip(text.len() - 20))
}

/// The current time from `SystemTime::now`, written by chrono's
/// `DateTime<Utc>::to_rfc3339_opts(SecondsFormat::Millis, true)`. Claimed: the text has
/// that format's shape (`write_rfc3339` writes the year as four digits, or with a sign
/// outside `0..=9999`, then two-digit month, day, hour, minute and second, three digits of
/// milliseconds and `Z`). Which time it is depends on the clock and is not claimed. chrono
/// panics only for a clock outside its range of about 262,000 years around year 0.
#[verifier::external_body]
fn now_utc_rfc3339_millis() -> (timestamp: String)
    ensures
        is_rfc3339_utc_millis(timestamp@),
{
    chrono::DateTime::<chrono::Utc>::from(std::time::SystemTime::now()).to_rfc3339_opts(
        chrono::SecondsFormat::Millis,
        true,
    )
}

/// The export file name for the current time: `fit-result-` and the current UTC time in
/// RFC 3339 with milliseconds (every `:` made a `-`), then `.json`. Which time it is
/// depends on the clock.
pub fn default_fit_export_file_name() -> (name: String)
    ensures
        exists|timestamp: Seq<char>|
            is_rfc3339_utc_millis(timestamp) && name@ == spec_fit_export_file_name(timestamp),
{
    let timestamp = now_utc_rfc3339_millis();
    fit_export_file_name(timestamp.as_str())
}

} // verus!
