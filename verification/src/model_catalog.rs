//! The models a user can choose, how a choice resolves to a curve family or a spline, and
//! the option enums of fitting.

use vstd::prelude::*;
use crate::family::{
    spec_from_rational_degree, spec_min_points, spec_polynomial_degree, spec_rational_degree,
    CurveFamily,
};

verus! {

/// The models the user can choose.
#[derive(Debug, Clone, Copy, PartialEq, Eq, Structural)]
pub enum ModelChoice {
    Polynomial,
    Arrhenius,
    Inverse,
    Logistic,
    Gompertz,
    BiExponential,
    DampedSinusoid,
    Lorentzian,
    NaturalLog,
    FourPl,
    FivePl,
    MichaelisMenten,
    ExponentialBasic,
    ExponentialLinear,
    ExponentialHalfLife,
    FallingExponential,
    HyperbolicTangent,
    ArctangentStep,
    Softplus,
    Power,
    Gaussian,
    Rational,
    Emg,
    PseudoVoigt,
    LinearSpline,
    MonotoneCubicSpline,
    NaturalCubicSpline,
    AkimaSpline,
}

/// The spline interpolation kinds.
#[derive(Debug, Clone, Copy, PartialEq, Eq, Structural)]
pub enum SplineFamilyKind {
    Linear,
    MonotoneCubic,
    NaturalCubic,
    Akima,
}

/// A choice after its degree settings are applied: a parametric family or a spline kind.
#[derive(Debug, Clone, Copy, PartialEq, Eq, Structural)]
pub enum ResolvedModel {
    Parametric(CurveFamily),
    LinearSpline,
    MonotoneCubicSpline,
    NaturalCubicSpline,
    AkimaSpline,
}

/// The groups of the model menu.
#[derive(Debug, Clone, Copy, PartialEq, Eq, Structural)]
pub enum ModelGroup {
    Polynomial,
    ParametricGeneral,
    ParametricSigmoid,
    ParametricPeak,
    Spline,
}

impl ModelGroup {
    /// The groups in the order the model selector shows them.
    pub fn all() -> (groups: Vec<ModelGroup>)
        ensures
            groups@ == seq![
                ModelGroup::Polynomial,
                ModelGroup::ParametricGeneral,
                ModelGroup::ParametricSigmoid,
                ModelGroup::ParametricPeak,
                ModelGroup::Spline,
            ],
    {
        let groups = vec![
            ModelGroup::Polynomial,
            ModelGroup::ParametricGeneral,
            ModelGroup::ParametricSigmoid,
            ModelGroup::ParametricPeak,
            ModelGroup::Spline,
        ];
        proof {
            assert(groups@ =~= seq![
                ModelGroup::Polynomial,
                ModelGroup::ParametricGeneral,
                ModelGroup::ParametricSigmoid,
                ModelGroup::ParametricPeak,
                ModelGroup::Spline,
            ]);
        }
        groups
    }
}

/// The loss the optimizer minimizes.
#[derive(Debug, Clone, Copy, PartialEq, Eq, Structural)]
pub enum OptimizationLossMetric {
    Mse,
    Mae,
    SoftL1,
}

/// How spline knot values are taken from the data.
#[derive(Debug, Clone, Copy, PartialEq, Eq, Structural)]
pub enum SplineKnotStrategy {
    BinMean,
    BinMedian,
}

/// How a spline continues past its end knots.
#[derive(Debug, Clone, Copy, PartialEq, Eq, Structural)]
pub enum SplineExtrapolation {
    Clamp,
    Linear,
}

/// How points sharing an `x` are handled before a spline fit.
#[derive(Debug, Clone, Copy, PartialEq, Eq, Structural)]
pub enum SplineDuplicateXPolicy {
    Error,
    MeanY,
    MedianY,
    FirstY,
}

/// How starting parameters are chosen before a fit.
#[derive(Debug, Clone, Copy, PartialEq, Eq, Structural)]
pub enum ParamInitMethod {
    Default,
    DataBased,
    Randomized,
}

impl ParamInitMethod {
    /// The methods in the order the interface offers them.
    pub fn all() -> (methods: Vec<ParamInitMethod>)
        ensures
            methods@ == seq![ParamInitMethod::Default, ParamInitMethod::DataBased, ParamInitMethod::Randomized],
    {
        let methods = vec![ParamInitMethod::Default, ParamInitMethod::DataBased, ParamInitMethod::Randomized];
        proof {
            assert(methods@ =~= seq![ParamInitMethod::Default, ParamInitMethod::DataBased, ParamInitMethod::Randomized]);
        }
        methods
    }
}

/// The polynomial family of a degree, the degree first clamped to `1..=9`.
pub open spec fn spec_polynomial_family(degree: nat) -> CurveFamily {
    if degree <= 1 {
        CurveFamily::Linear
    } else if degree <= 2 {
        CurveFamily::Quadratic
    } else if degree <= 3 {
        CurveFamily::Cubic
    } else if degree <= 4 {
        CurveFamily::Quartic
    } else if degree <= 5 {
        CurveFamily::Quintic
    } else if degree <= 6 {
        CurveFamily::Sextic
    } else if degree <= 7 {
        CurveFamily::Septic
    } else if degree <= 8 {
        CurveFamily::Octic
    } else {
        CurveFamily::Nonic
    }
}

/// The polynomial family of a degree, the degree first clamped to `1..=9`.
pub fn polynomial_family(degree: usize) -> (family: CurveFamily)
    ensures
        family == spec_polynomial_family(degree as nat),
{
    if degree <= 1 {
        CurveFamily::Linear
    } else if degree <= 2 {
        CurveFamily::Quadratic
    } else if degree <= 3 {
        CurveFamily::Cubic
    } else if degree <= 4 {
        CurveFamily::Quartic
    } else if degree <= 5 {
        CurveFamily::Quintic
    } else if degree <= 6 {
        CurveFamily::Sextic
    } else if degree <= 7 {
        CurveFamily::Septic
    } else if degree <= 8 {
        CurveFamily::Octic
    } else {
        CurveFamily::Nonic
    }
}

/// The `n/n` rational family of a degree, the degree first clamped to `1..=5`.
pub fn rational_family(degree: usize) -> (family: CurveFamily)
    ensures
        family == spec_from_rational_degree(degree as nat),
{
    CurveFamily::from_rational_degree(degree)
}

/// What a choice resolves to under the polynomial and rational degree settings.
pub open spec fn spec_resolve(choice: ModelChoice, polynomial_degree: nat, rational_degree: nat) -> ResolvedModel {
    match choice {
        ModelChoice::Polynomial => ResolvedModel::Parametric(spec_polynomial_family(polynomial_degree)),
        ModelChoice::Rational => ResolvedModel::Parametric(spec_from_rational_degree(rational_degree)),
        ModelChoice::Arrhenius => ResolvedModel::Parametric(CurveFamily::Arrhenius),
        ModelChoice::Inverse => ResolvedModel::Parametric(CurveFamily::Inverse),
        ModelChoice::Logistic => ResolvedModel::Parametric(CurveFamily::Logistic),
        ModelChoice::Gompertz => ResolvedModel::Parametric(CurveFamily::Gompertz),
        ModelChoice::BiExponential => ResolvedModel::Parametric(CurveFamily::BiExponential),
        ModelChoice::DampedSinusoid => ResolvedModel::Parametric(CurveFamily::DampedSinusoid),
        ModelChoice::Lorentzian => ResolvedModel::Parametric(CurveFamily::Lorentzian),
        ModelChoice::NaturalLog => ResolvedModel::Parametric(CurveFamily::NaturalLog),
        ModelChoice::FourPl => ResolvedModel::Parametric(CurveFamily::FourPl),
        ModelChoice::FivePl => ResolvedModel::Parametric(CurveFamily::FivePl),
        ModelChoice::MichaelisMenten => ResolvedModel::Parametric(CurveFamily::MichaelisMenten),
        ModelChoice::ExponentialBasic => ResolvedModel::Parametric(CurveFamily::ExponentialBasic),
        ModelChoice::ExponentialLinear => ResolvedModel::Parametric(CurveFamily::ExponentialLinear),
        ModelChoice::ExponentialHalfLife => ResolvedModel::Parametric(CurveFamily::ExponentialHalfLife),
        ModelChoice::FallingExponential => ResolvedModel::Parametric(CurveFamily::FallingExponential),
        ModelChoice::HyperbolicTangent => ResolvedModel::Parametric(CurveFamily::HyperbolicTangent),
        ModelChoice::ArctangentStep => ResolvedModel::Parametric(CurveFamily::ArctangentStep),
        ModelChoice::Softplus => ResolvedModel::Parametric(CurveFamily::Softplus),
        ModelChoice::Power => ResolvedModel::Parametric(CurveFamily::Power),
        ModelChoice::Gaussian => ResolvedModel::Parametric(CurveFamily::Gaussian),
        ModelChoice::Emg => ResolvedModel::Parametric(CurveFamily::Emg),
        ModelChoice::PseudoVoigt => ResolvedModel::Parametric(CurveFamily::PseudoVoigt),
        ModelChoice::LinearSpline => ResolvedModel::LinearSpline,
        ModelChoice::MonotoneCubicSpline => ResolvedModel::MonotoneCubicSpline,
        ModelChoice::NaturalCubicSpline => ResolvedModel::NaturalCubicSpline,
        ModelChoice::AkimaSpline => ResolvedModel::AkimaSpline,
    }
}

impl ModelChoice {
    /// Whether the choice is the polynomial model.
    pub fn is_polynomial(self) -> (result: bool)
        ensures
            result == (self == ModelChoice::Polynomial),
    {
        matches!(self, ModelChoice::Polynomial)
    }

}

impl ResolvedModel {
    /// What a choice resolves to under the polynomial and rational degree settings.
    pub fn from_choice(choice: ModelChoice, polynomial_degree: usize, rational_degree: usize) -> (model: ResolvedModel)
        ensures
            model == spec_resolve(choice, polynomial_degree as nat, rational_degree as nat),
    {
        match choice {
            ModelChoice::Polynomial => ResolvedModel::Parametric(polynomial_family(polynomial_degree)),
            ModelChoice::Rational => ResolvedModel::Parametric(rational_family(rational_degree)),
            ModelChoice::Arrhenius => ResolvedModel::Parametric(CurveFamily::Arrhenius),
            ModelChoice::Inverse => ResolvedModel::Parametric(CurveFamily::Inverse),
            ModelChoice::Logistic => ResolvedModel::Parametric(CurveFamily::Logistic),
            ModelChoice::Gompertz => ResolvedModel::Parametric(CurveFamily::Gompertz),
            ModelChoice::BiExponential => ResolvedModel::Parametric(CurveFamily::BiExponential),
            ModelChoice::DampedSinusoid => ResolvedModel::Parametric(CurveFamily::DampedSinusoid),
            ModelChoice::Lorentzian => ResolvedModel::Parametric(CurveFamily::Lorentzian),
            ModelChoice::NaturalLog => ResolvedModel::Parametric(CurveFamily::NaturalLog),
            ModelChoice::FourPl => ResolvedModel::Parametric(CurveFamily::FourPl),
            ModelChoice::FivePl => ResolvedModel::Parametric(CurveFamily::FivePl),
            ModelChoice::MichaelisMenten => ResolvedModel::Parametric(CurveFamily::MichaelisMenten),
            ModelChoice::ExponentialBasic => ResolvedModel::Parametric(CurveFamily::ExponentialBasic),
            ModelChoice::ExponentialLinear => ResolvedModel::Parametric(CurveFamily::ExponentialLinear),
            ModelChoice::ExponentialHalfLife => ResolvedModel::Parametric(CurveFamily::ExponentialHalfLife),
            ModelChoice::FallingExponential => ResolvedModel::Parametric(CurveFamily::FallingExponential),
            ModelChoice::HyperbolicTangent => ResolvedModel::Parametric(CurveFamily::HyperbolicTangent),
            ModelChoice::ArctangentStep => ResolvedModel::Parametric(CurveFamily::ArctangentStep),
            ModelChoice::Softplus => ResolvedModel::Parametric(CurveFamily::Softplus),
            ModelChoice::Power => ResolvedModel::Parametric(CurveFamily::Power),
            ModelChoice::Gaussian => ResolvedModel::Parametric(CurveFamily::Gaussian),
            ModelChoice::Emg => ResolvedModel::Parametric(CurveFamily::Emg),
            ModelChoice::PseudoVoigt => ResolvedModel::Parametric(CurveFamily::PseudoVoigt),
            ModelChoice::LinearSpline => ResolvedModel::LinearSpline,
            ModelChoice::MonotoneCubicSpline => ResolvedModel::MonotoneCubicSpline,
            ModelChoice::NaturalCubicSpline => ResolvedModel::NaturalCubicSpline,
            ModelChoice::AkimaSpline => ResolvedModel::AkimaSpline,
        }
    }

    /// The parametric family, `None` for a spline.
    pub fn parametric_family(self) -> (family: Option<CurveFamily>)
        ensures
            family == (match self {
                ResolvedModel::Parametric(f) => Some(f),
                _ => None,
            }),
    {
        match self {
            ResolvedModel::Parametric(family) => Some(family),
            _ => None,
        }
    }

    /// The spline kind, `None` for a parametric family.
    pub fn spline_family(self) -> (kind: Option<SplineFamilyKind>)
        ensures
            kind == (match self {
                ResolvedModel::Parametric(_) => None,
                ResolvedModel::LinearSpline => Some(SplineFamilyKind::Linear),
                ResolvedModel::MonotoneCubicSpline => Some(SplineFamilyKind::MonotoneCubic),
                ResolvedModel::NaturalCubicSpline => Some(SplineFamilyKind::NaturalCubic),
                ResolvedModel::AkimaSpline => Some(SplineFamilyKind::Akima),
            }),
    {
        match self {
            ResolvedModel::Parametric(_) => None,
            ResolvedModel::LinearSpline => Some(SplineFamilyKind::Linear),
            ResolvedModel::MonotoneCubicSpline => Some(SplineFamilyKind::MonotoneCubic),
            ResolvedModel::NaturalCubicSpline => Some(SplineFamilyKind::NaturalCubic),
            ResolvedModel::AkimaSpline => Some(SplineFamilyKind::Akima),
        }
    }

    /// The fewest knots of a spline, `None` for a parametric family.
    pub fn spline_min_knots(self) -> (knots: Option<usize>)
        ensures
            knots == spec_spline_min_knots(self),
    {
        match self {
            ResolvedModel::Parametric(_) => None,
            ResolvedModel::LinearSpline | ResolvedModel::MonotoneCubicSpline => Some(2),
            ResolvedModel::NaturalCubicSpline => Some(3),
            ResolvedModel::AkimaSpline => Some(5),
        }
    }
}

/// The fewest knots of a spline, `None` for a parametric family.
pub open spec fn spec_spline_min_knots(model: ResolvedModel) -> Option<usize> {
    match model {
        ResolvedModel::Parametric(_) => None,
        ResolvedModel::LinearSpline | ResolvedModel::MonotoneCubicSpline => Some(2),
        ResolvedModel::NaturalCubicSpline => Some(3),
        ResolvedModel::AkimaSpline => Some(5),
    }
}

/// The fewest points a fit of the resolved model needs.
pub open spec fn spec_model_min_points(model: ResolvedModel) -> nat {
    match model {
        ResolvedModel::Parametric(family) => spec_min_points(family),
        ResolvedModel::LinearSpline | ResolvedModel::MonotoneCubicSpline => 2,
        ResolvedModel::NaturalCubicSpline => 3,
        ResolvedModel::AkimaSpline => 5,
    }
}

/// The fewest points a fit of the chosen model needs under the degree settings.
pub fn model_min_points(model: ModelChoice, polynomial_degree: usize, rational_degree: usize) -> (count: usize)
    ensures
        count == spec_model_min_points(spec_resolve(model, polynomial_degree as nat, rational_degree as nat)),
{
    match ResolvedModel::from_choice(model, polynomial_degree, rational_degree) {
        ResolvedModel::Parametric(family) => family.min_points(),
        ResolvedModel::LinearSpline | ResolvedModel::MonotoneCubicSpline => 2,
        ResolvedModel::NaturalCubicSpline => 3,
        ResolvedModel::AkimaSpline => 5,
    }
}

/// The menu group of a model.
pub open spec fn spec_model_group(model: ModelChoice) -> ModelGroup {
    match model {
        ModelChoice::Polynomial => ModelGroup::Polynomial,
        ModelChoice::Logistic | ModelChoice::Gompertz | ModelChoice::FourPl | ModelChoice::FivePl | ModelChoice::HyperbolicTangent | ModelChoice::ArctangentStep | ModelChoice::Softplus => ModelGroup::ParametricSigmoid,
        ModelChoice::Lorentzian | ModelChoice::Gaussian | ModelChoice::Emg | ModelChoice::PseudoVoigt => ModelGroup::ParametricPeak,
        ModelChoice::LinearSpline | ModelChoice::MonotoneCubicSpline | ModelChoice::NaturalCubicSpline | ModelChoice::AkimaSpline => ModelGroup::Spline,
        ModelChoice::Arrhenius | ModelChoice::Inverse | ModelChoice::BiExponential | ModelChoice::DampedSinusoid | ModelChoice::NaturalLog | ModelChoice::MichaelisMenten | ModelChoice::ExponentialBasic | ModelChoice::ExponentialLinear | ModelChoice::ExponentialHalfLife | ModelChoice::FallingExponential | ModelChoice::Power | ModelChoice::Rational => ModelGroup::ParametricGeneral,
    }
}

/// The menu group of a model.
pub fn model_group(model: ModelChoice) -> (group: ModelGroup)
    ensures
        group == spec_model_group(model),
{
    match model {
        ModelChoice::Polynomial => ModelGroup::Polynomial,
        ModelChoice::Logistic | ModelChoice::Gompertz | ModelChoice::FourPl | ModelChoice::FivePl | ModelChoice::HyperbolicTangent | ModelChoice::ArctangentStep | ModelChoice::Softplus => ModelGroup::ParametricSigmoid,
        ModelChoice::Lorentzian | ModelChoice::Gaussian | ModelChoice::Emg | ModelChoice::PseudoVoigt => ModelGroup::ParametricPeak,
        ModelChoice::LinearSpline | ModelChoice::MonotoneCubicSpline | ModelChoice::NaturalCubicSpline | ModelChoice::AkimaSpline => ModelGroup::Spline,
        ModelChoice::Arrhenius | ModelChoice::Inverse | ModelChoice::BiExponential | ModelChoice::DampedSinusoid | ModelChoice::NaturalLog | ModelChoice::MichaelisMenten | ModelChoice::ExponentialBasic | ModelChoice::ExponentialLinear | ModelChoice::ExponentialHalfLife | ModelChoice::FallingExponential | ModelChoice::Power | ModelChoice::Rational => ModelGroup::ParametricGeneral,
    }
}

/// Whether data-based and randomized starting parameters exist for a family: polynomials,
/// rational models and a fixed list of other families.
pub open spec fn spec_advanced_init_supported(family: CurveFamily) -> bool {
    spec_polynomial_degree(family).is_some() || spec_rational_degree(family).is_some() || family == CurveFamily::Logistic || family == CurveFamily::Gompertz || family == CurveFamily::BiExponential || family == CurveFamily::DampedSinusoid || family == CurveFamily::Gaussian || family == CurveFamily::ExponentialBasic || family == CurveFamily::Power || family == CurveFamily::Emg || family == CurveFamily::PseudoVoigt
}

/// Whether data-based and randomized starting parameters exist for a family.
pub fn is_advanced_param_init_supported(family: CurveFamily) -> (supported: bool)
    ensures
        supported == spec_advanced_init_supported(family),
{
    family.is_polynomial() || family.is_rational() || matches!(
        family,
        CurveFamily::Logistic
            | CurveFamily::Gompertz
            | CurveFamily::BiExponential
            | CurveFamily::DampedSinusoid
            | CurveFamily::Gaussian
            | CurveFamily::ExponentialBasic
            | CurveFamily::Power
            | CurveFamily::Emg
            | CurveFamily::PseudoVoigt
    )
}

impl ParamInitMethod {
    /// Whether the method can start a fit of the family: the default always can, the
    /// others only where advanced initialization exists.
    pub fn is_supported_for_family(self, family: CurveFamily) -> (supported: bool)
        ensures
            supported == (self == ParamInitMethod::Default || spec_advanced_init_supported(family)),
    {
        match self {
            ParamInitMethod::Default => true,
            ParamInitMethod::DataBased | ParamInitMethod::Randomized => is_advanced_param_init_supported(
                family,
            ),
        }
    }
}

impl OptimizationLossMetric {
    /// The identifier used in exported results.
    pub fn id(self) -> (id: &'static str)
        ensures
            id@ == (match self {
                OptimizationLossMetric::Mse => "mse"@,
                OptimizationLossMetric::Mae => "mae"@,
                OptimizationLossMetric::SoftL1 => "soft_l1"@,
            }),
    {
        match self {
            OptimizationLossMetric::Mse => "mse",
            OptimizationLossMetric::Mae => "mae",
            OptimizationLossMetric::SoftL1 => "soft_l1",
        }
    }
}

/// The polynomial choice resolves to the polynomial of the clamped degree, and the
/// rational choice to the rational family of the clamped degree.
pub proof fn lemma_degree_choices_resolve(polynomial_degree: nat, rational_degree: nat)
    ensures
        spec_resolve(ModelChoice::Polynomial, polynomial_degree, rational_degree) matches ResolvedModel::Parametric(f)
            && spec_polynomial_degree(f) == Some(
            crate::family::clamp_nat(polynomial_degree, 1, 9),
        ),
        spec_resolve(ModelChoice::Rational, polynomial_degree, rational_degree) matches ResolvedModel::Parametric(f)
            && spec_rational_degree(f) == Some(
            crate::family::clamp_nat(rational_degree, 1, 5),
        ),
{
}

/// A resolved model is either a parametric family or a spline kind, never both.
pub proof fn lemma_resolved_model_kind(choice: ModelChoice, polynomial_degree: nat, rational_degree: nat)
    ensures
        ({
            let model = spec_resolve(choice, polynomial_degree, rational_degree);
            (model is Parametric) != spec_spline_min_knots(model).is_some()
        }),
{
}


/// The number of model choices.
pub const MODEL_CHOICE_COUNT: usize = 28;

/// The position of a model choice in the order the model selector lists them.
pub open spec fn spec_model_choice_index(model: ModelChoice) -> nat {
    match model {
        ModelChoice::Polynomial => 0,
        ModelChoice::Arrhenius => 1,
        ModelChoice::Inverse => 2,
        ModelChoice::Logistic => 3,
        ModelChoice::Gompertz => 4,
        ModelChoice::BiExponential => 5,
        ModelChoice::DampedSinusoid => 6,
        ModelChoice::Lorentzian => 7,
        ModelChoice::NaturalLog => 8,
        ModelChoice::FourPl => 9,
        ModelChoice::FivePl => 10,
        ModelChoice::MichaelisMenten => 11,
        ModelChoice::ExponentialBasic => 12,
        ModelChoice::ExponentialLinear => 13,
        ModelChoice::ExponentialHalfLife => 14,
        ModelChoice::FallingExponential => 15,
        ModelChoice::HyperbolicTangent => 16,
        ModelChoice::ArctangentStep => 17,
        ModelChoice::Softplus => 18,
        ModelChoice::Power => 19,
        ModelChoice::Gaussian => 20,
        ModelChoice::Rational => 21,
        ModelChoice::Emg => 22,
        ModelChoice::PseudoVoigt => 23,
        ModelChoice::LinearSpline => 24,
        ModelChoice::MonotoneCubicSpline => 25,
        ModelChoice::NaturalCubicSpline => 26,
        ModelChoice::AkimaSpline => 27,
    }
}

/// The model choice at a position of the selector's order; the last one past the end.
pub open spec fn spec_model_choice_at(index: nat) -> ModelChoice {
    if index == 0 {
        ModelChoice::Polynomial
    } else if index == 1 {
        ModelChoice::Arrhenius
    } else if index == 2 {
        ModelChoice::Inverse
    } else if index == 3 {
        ModelChoice::Logistic
    } else if index == 4 {
        ModelChoice::Gompertz
    } else if index == 5 {
        ModelChoice::BiExponential
    } else if index == 6 {
        ModelChoice::DampedSinusoid
    } else if index == 7 {
        ModelChoice::Lorentzian
    } else if index == 8 {
        ModelChoice::NaturalLog
    } else if index == 9 {
        ModelChoice::FourPl
    } else if index == 10 {
        ModelChoice::FivePl
    } else if index == 11 {
        ModelChoice::MichaelisMenten
    } else if index == 12 {
        ModelChoice::ExponentialBasic
    } else if index == 13 {
        ModelChoice::ExponentialLinear
    } else if index == 14 {
        ModelChoice::ExponentialHalfLife
    } else if index == 15 {
        ModelChoice::FallingExponential
    } else if index == 16 {
        ModelChoice::HyperbolicTangent
    } else if index == 17 {
        ModelChoice::ArctangentStep
    } else if index == 18 {
        ModelChoice::Softplus
    } else if index == 19 {
        ModelChoice::Power
    } else if index == 20 {
        ModelChoice::Gaussian
    } else if index == 21 {
        ModelChoice::Rational
    } else if index == 22 {
        ModelChoice::Emg
    } else if index == 23 {
        ModelChoice::PseudoVoigt
    } else if index == 24 {
        ModelChoice::LinearSpline
    } else if index == 25 {
        ModelChoice::MonotoneCubicSpline
    } else if index == 26 {
        ModelChoice::NaturalCubicSpline
    } else {
        ModelChoice::AkimaSpline
    }
}

impl ModelChoice {
    /// Every model choice once, in the order the model selector lists them.
    pub fn all() -> (models: Vec<ModelChoice>)
        ensures
            models@.len() == MODEL_CHOICE_COUNT,
            forall|k: int| 0 <= k < MODEL_CHOICE_COUNT ==> #[trigger] models@[k] == spec_model_choice_at(k as nat),
    {
        let models = vec![
            ModelChoice::Polynomial,
            ModelChoice::Arrhenius,
            ModelChoice::Inverse,
            ModelChoice::Logistic,
            ModelChoice::Gompertz,
            ModelChoice::BiExponential,
            ModelChoice::DampedSinusoid,
            ModelChoice::Lorentzian,
            ModelChoice::NaturalLog,
            ModelChoice::FourPl,
            ModelChoice::FivePl,
            ModelChoice::MichaelisMenten,
            ModelChoice::ExponentialBasic,
            ModelChoice::ExponentialLinear,
            ModelChoice::ExponentialHalfLife,
            ModelChoice::FallingExponential,
            ModelChoice::HyperbolicTangent,
            ModelChoice::ArctangentStep,
            ModelChoice::Softplus,
            ModelChoice::Power,
            ModelChoice::Gaussian,
            ModelChoice::Rational,
            ModelChoice::Emg,
            ModelChoice::PseudoVoigt,
            ModelChoice::LinearSpline,
            ModelChoice::MonotoneCubicSpline,
            ModelChoice::NaturalCubicSpline,
            ModelChoice::AkimaSpline,
        ];
        proof {
            assert(models@.len() == MODEL_CHOICE_COUNT);
        }
        models
    }
}

/// The selector's order lists every model choice exactly once.
pub proof fn lemma_model_choice_ordering_is_a_bijection(model: ModelChoice, index: nat)
    ensures
        spec_model_choice_index(model) < MODEL_CHOICE_COUNT,
        spec_model_choice_at(spec_model_choice_index(model)) == model,
        index < MODEL_CHOICE_COUNT ==> spec_model_choice_index(spec_model_choice_at(index)) == index,
{
}

} // verus!
