//! The supported curve families and their static metadata.

use vstd::prelude::*;

verus! {

/// Smallest supported degree of an `n/n` rational model.
pub const MIN_RATIONAL_DEGREE: usize = 1;
/// Largest supported degree of an `n/n` rational model.
pub const MAX_RATIONAL_DEGREE: usize = 5;
/// Smallest number of active saturation times of a saturating-trend basis.
pub const MIN_SATURATING_TREND_TAU_COUNT: usize = 1;
/// Largest number of active saturation times of a saturating-trend basis.
pub const MAX_SATURATING_TREND_TAU_COUNT: usize = 6;
/// Number of supported curve families.
pub const CURVE_FAMILY_COUNT: usize = 42;

/// The supported analytic curve families.
#[derive(Debug, Clone, Copy, PartialEq, Eq, Structural)]
pub enum CurveFamily {
    Linear,
    Quadratic,
    Cubic,
    Quartic,
    Quintic,
    Sextic,
    Septic,
    Octic,
    Nonic,
    Arrhenius,
    Inverse,
    Logistic,
    Gompertz,
    BiExponential,
    DampedSinusoid,
    Lorentzian,
    NaturalLog,
    FourPl,
    FivePl,
    MichaelisMenten,
    ExponentialBasic,
    ExponentialLinear,
    ExponentialHalfLife,
    FallingExponential,
    HyperbolicTangent,
    ArctangentStep,
    Softplus,
    Power,
    Gaussian,
    Rational11,
    Rational22,
    Rational33,
    Rational44,
    Rational55,
    Emg,
    PseudoVoigt,
    SaturatingTrendBasis1,
    SaturatingTrendBasis2,
    SaturatingTrendBasis3,
    SaturatingTrendBasis4,
    SaturatingTrendBasis5,
    SaturatingTrendBasis6,
}

/// Static description of one family.
#[derive(Debug, Clone, Copy)]
pub struct CurveFamilyMetadata {
    pub label: &'static str,
    pub parameter_names: &'static [&'static str],
    pub min_points: usize,
    pub requires_positive_x: bool,
}

/// The short human-readable name of a family.
pub open spec fn spec_label(family: CurveFamily) -> Seq<char> {
    match family {
        CurveFamily::Linear => "Linear"@,
        CurveFamily::Quadratic => "Quadratic"@,
        CurveFamily::Cubic => "Cubic"@,
        CurveFamily::Quartic => "Quartic"@,
        CurveFamily::Quintic => "Quintic"@,
        CurveFamily::Sextic => "Sextic"@,
        CurveFamily::Septic => "Septic"@,
        CurveFamily::Octic => "Octic"@,
        CurveFamily::Nonic => "Nonic"@,
        CurveFamily::Arrhenius => "Arrhenius"@,
        CurveFamily::Inverse => "Inverse"@,
        CurveFamily::Logistic => "Logistic"@,
        CurveFamily::Gompertz => "Gompertz"@,
        CurveFamily::BiExponential => "Bi-Exponential"@,
        CurveFamily::DampedSinusoid => "Damped Sinusoid"@,
        CurveFamily::Lorentzian => "Lorentzian"@,
        CurveFamily::NaturalLog => "Natural Log"@,
        CurveFamily::FourPl => "4PL"@,
        CurveFamily::FivePl => "5PL"@,
        CurveFamily::MichaelisMenten => "Michaelis-Menten"@,
        CurveFamily::ExponentialBasic => "Exponential (Basic)"@,
        CurveFamily::ExponentialLinear => "Exponential + Linear"@,
        CurveFamily::ExponentialHalfLife => "Exponential (Half-life)"@,
        CurveFamily::FallingExponential => "Falling Exponential"@,
        CurveFamily::HyperbolicTangent => "Hyperbolic Tangent"@,
        CurveFamily::ArctangentStep => "Arctangent Step"@,
        CurveFamily::Softplus => "Softplus"@,
        CurveFamily::Power => "Power"@,
        CurveFamily::Gaussian => "Gaussian"@,
        CurveFamily::Rational11 => "Rational (1/1)"@,
        CurveFamily::Rational22 => "Rational (2/2)"@,
        CurveFamily::Rational33 => "Rational (3/3)"@,
        CurveFamily::Rational44 => "Rational (4/4)"@,
        CurveFamily::Rational55 => "Rational (5/5)"@,
        CurveFamily::Emg => "EMG"@,
        CurveFamily::PseudoVoigt => "Pseudo-Voigt"@,
        CurveFamily::SaturatingTrendBasis1 => "Saturating Trend Basis (1 tau)"@,
        CurveFamily::SaturatingTrendBasis2 => "Saturating Trend Basis (2 tau)"@,
        CurveFamily::SaturatingTrendBasis3 => "Saturating Trend Basis (3 tau)"@,
        CurveFamily::SaturatingTrendBasis4 => "Saturating Trend Basis (4 tau)"@,
        CurveFamily::SaturatingTrendBasis5 => "Saturating Trend Basis (5 tau)"@,
        CurveFamily::SaturatingTrendBasis6 => "Saturating Trend Basis (6 tau)"@,
    }
}

/// The parameter names of a family, in the order of its value vector.
pub open spec fn spec_parameter_names(family: CurveFamily) -> Seq<Seq<char>> {
    match family {
        CurveFamily::Linear => seq!["a"@, "b"@],
        CurveFamily::Quadratic => seq!["a"@, "b"@, "c"@],
        CurveFamily::Cubic => seq!["a"@, "b"@, "c"@, "d"@],
        CurveFamily::Quartic => seq!["a"@, "b"@, "c"@, "d"@, "e"@],
        CurveFamily::Quintic => seq!["a"@, "b"@, "c"@, "d"@, "e"@, "f"@],
        CurveFamily::Sextic => seq!["a"@, "b"@, "c"@, "d"@, "e"@, "f"@, "g"@],
        CurveFamily::Septic => seq!["a"@, "b"@, "c"@, "d"@, "e"@, "f"@, "g"@, "h"@],
        CurveFamily::Octic => seq!["a"@, "b"@, "c"@, "d"@, "e"@, "f"@, "g"@, "h"@, "i"@],
        CurveFamily::Nonic => seq!["a"@, "b"@, "c"@, "d"@, "e"@, "f"@, "g"@, "h"@, "i"@, "j"@],
        CurveFamily::Arrhenius => seq!["A"@, "B"@],
        CurveFamily::Inverse => seq!["A"@, "B"@],
        CurveFamily::Logistic => seq!["A"@, "B"@, "C"@],
        CurveFamily::Gompertz => seq!["A"@, "B"@, "C"@],
        CurveFamily::BiExponential => seq!["a1"@, "k1"@, "a2"@, "k2"@, "c"@],
        CurveFamily::DampedSinusoid => seq!["a"@, "k"@, "omega"@, "phi"@, "c"@],
        CurveFamily::Lorentzian => seq!["A"@, "x0"@, "gamma"@, "C"@],
        CurveFamily::NaturalLog => seq!["A"@, "B"@],
        CurveFamily::FourPl => seq!["a"@, "b"@, "c"@, "d"@],
        CurveFamily::FivePl => seq!["a"@, "b"@, "c"@, "d"@, "m"@],
        CurveFamily::MichaelisMenten => seq!["Vmax"@, "Km"@],
        CurveFamily::ExponentialBasic => seq!["a"@, "b"@, "c"@],
        CurveFamily::ExponentialLinear => seq!["a"@, "b"@, "c"@, "d"@],
        CurveFamily::ExponentialHalfLife => seq!["a"@, "b"@, "c"@],
        CurveFamily::FallingExponential => seq!["Y0"@, "V0"@, "K"@],
        CurveFamily::HyperbolicTangent => seq!["a"@, "b"@, "c"@, "d"@],
        CurveFamily::ArctangentStep => seq!["a"@, "b"@, "c"@, "d"@],
        CurveFamily::Softplus => seq!["a"@, "b"@, "c"@, "d"@],
        CurveFamily::Power => seq!["a"@, "b"@],
        CurveFamily::Gaussian => seq!["a"@, "b"@, "c"@],
        CurveFamily::Rational11 => seq!["a"@, "b"@, "c"@, "d"@],
        CurveFamily::Rational22 => seq!["a"@, "b"@, "c"@, "d"@, "e"@],
        CurveFamily::Rational33 => seq!["a"@, "b"@, "c"@, "d"@, "e"@, "f"@, "g"@],
        CurveFamily::Rational44 => seq!["a"@, "b"@, "c"@, "d"@, "e"@, "f"@, "g"@, "h"@, "i"@],
        CurveFamily::Rational55 => seq!["a"@, "b"@, "c"@, "d"@, "e"@, "f"@, "g"@, "h"@, "i"@, "j"@, "k"@],
        CurveFamily::Emg => seq!["a"@, "mu"@, "sigma"@, "tau"@, "c"@],
        CurveFamily::PseudoVoigt => seq!["a"@, "x0"@, "sigma"@, "gamma"@, "eta"@, "c"@],
        CurveFamily::SaturatingTrendBasis1 => seq!["c"@, "w1"@],
        CurveFamily::SaturatingTrendBasis2 => seq!["c"@, "w1"@, "w2"@],
        CurveFamily::SaturatingTrendBasis3 => seq!["c"@, "w1"@, "w2"@, "w3"@],
        CurveFamily::SaturatingTrendBasis4 => seq!["c"@, "w1"@, "w2"@, "w3"@, "w4"@],
        CurveFamily::SaturatingTrendBasis5 => seq!["c"@, "w1"@, "w2"@, "w3"@, "w4"@, "w5"@],
        CurveFamily::SaturatingTrendBasis6 => seq!["c"@, "w1"@, "w2"@, "w3"@, "w4"@, "w5"@, "w6"@],
    }
}

/// The number of points a fit of the family needs.
pub open spec fn spec_min_points(family: CurveFamily) -> nat {
    match family {
        CurveFamily::Linear => 2,
        CurveFamily::Quadratic => 3,
        CurveFamily::Cubic => 4,
        CurveFamily::Quartic => 5,
        CurveFamily::Quintic => 6,
        CurveFamily::Sextic => 7,
        CurveFamily::Septic => 8,
        CurveFamily::Octic => 9,
        CurveFamily::Nonic => 10,
        CurveFamily::Arrhenius => 2,
        CurveFamily::Inverse => 2,
        CurveFamily::Logistic => 3,
        CurveFamily::Gompertz => 3,
        CurveFamily::BiExponential => 5,
        CurveFamily::DampedSinusoid => 5,
        CurveFamily::Lorentzian => 4,
        CurveFamily::NaturalLog => 2,
        CurveFamily::FourPl => 4,
        CurveFamily::FivePl => 5,
        CurveFamily::MichaelisMenten => 2,
        CurveFamily::ExponentialBasic => 3,
        CurveFamily::ExponentialLinear => 4,
        CurveFamily::ExponentialHalfLife => 3,
        CurveFamily::FallingExponential => 3,
        CurveFamily::HyperbolicTangent => 4,
        CurveFamily::ArctangentStep => 4,
        CurveFamily::Softplus => 4,
        CurveFamily::Power => 2,
        CurveFamily::Gaussian => 3,
        CurveFamily::Rational11 => 4,
        CurveFamily::Rational22 => 5,
        CurveFamily::Rational33 => 7,
        CurveFamily::Rational44 => 9,
        CurveFamily::Rational55 => 11,
        CurveFamily::Emg => 5,
        CurveFamily::PseudoVoigt => 6,
        CurveFamily::SaturatingTrendBasis1 => 2,
        CurveFamily::SaturatingTrendBasis2 => 3,
        CurveFamily::SaturatingTrendBasis3 => 4,
        CurveFamily::SaturatingTrendBasis4 => 5,
        CurveFamily::SaturatingTrendBasis5 => 6,
        CurveFamily::SaturatingTrendBasis6 => 7,
    }
}

/// Whether the family is only defined for `x > 0`.
pub open spec fn spec_requires_positive_x(family: CurveFamily) -> bool {
    family == CurveFamily::Arrhenius || family == CurveFamily::Inverse || family == CurveFamily::NaturalLog || family == CurveFamily::FourPl || family == CurveFamily::FivePl || family == CurveFamily::Power
}

/// The position of a family in the stable ordering of [`all_curve_families`].
pub open spec fn spec_family_index(family: CurveFamily) -> nat {
    match family {
        CurveFamily::Linear => 0,
        CurveFamily::Quadratic => 1,
        CurveFamily::Cubic => 2,
        CurveFamily::Quartic => 3,
        CurveFamily::Quintic => 4,
        CurveFamily::Sextic => 5,
        CurveFamily::Septic => 6,
        CurveFamily::Octic => 7,
        CurveFamily::Nonic => 8,
        CurveFamily::Arrhenius => 9,
        CurveFamily::Inverse => 10,
        CurveFamily::Logistic => 11,
        CurveFamily::Gompertz => 12,
        CurveFamily::BiExponential => 13,
        CurveFamily::DampedSinusoid => 14,
        CurveFamily::Lorentzian => 15,
        CurveFamily::NaturalLog => 16,
        CurveFamily::FourPl => 17,
        CurveFamily::FivePl => 18,
        CurveFamily::MichaelisMenten => 19,
        CurveFamily::ExponentialBasic => 20,
        CurveFamily::ExponentialLinear => 21,
        CurveFamily::ExponentialHalfLife => 22,
        CurveFamily::FallingExponential => 23,
        CurveFamily::HyperbolicTangent => 24,
        CurveFamily::ArctangentStep => 25,
        CurveFamily::Softplus => 26,
        CurveFamily::Power => 27,
        CurveFamily::Gaussian => 28,
        CurveFamily::Rational11 => 29,
        CurveFamily::Rational22 => 30,
        CurveFamily::Rational33 => 31,
        CurveFamily::Rational44 => 32,
        CurveFamily::Rational55 => 33,
        CurveFamily::Emg => 34,
        CurveFamily::PseudoVoigt => 35,
        CurveFamily::SaturatingTrendBasis1 => 36,
        CurveFamily::SaturatingTrendBasis2 => 37,
        CurveFamily::SaturatingTrendBasis3 => 38,
        CurveFamily::SaturatingTrendBasis4 => 39,
        CurveFamily::SaturatingTrendBasis5 => 40,
        CurveFamily::SaturatingTrendBasis6 => 41,
    }
}

/// The family at a position of the stable ordering.
pub open spec fn spec_family_at(index: nat) -> CurveFamily {
    if index == 0 {
        CurveFamily::Linear
    } else if index == 1 {
        CurveFamily::Quadratic
    } else if index == 2 {
        CurveFamily::Cubic
    } else if index == 3 {
        CurveFamily::Quartic
    } else if index == 4 {
        CurveFamily::Quintic
    } else if index == 5 {
        CurveFamily::Sextic
    } else if index == 6 {
        CurveFamily::Septic
    } else if index == 7 {
        CurveFamily::Octic
    } else if index == 8 {
        CurveFamily::Nonic
    } else if index == 9 {
        CurveFamily::Arrhenius
    } else if index == 10 {
        CurveFamily::Inverse
    } else if index == 11 {
        CurveFamily::Logistic
    } else if index == 12 {
        CurveFamily::Gompertz
    } else if index == 13 {
        CurveFamily::BiExponential
    } else if index == 14 {
        CurveFamily::DampedSinusoid
    } else if index == 15 {
        CurveFamily::Lorentzian
    } else if index == 16 {
        CurveFamily::NaturalLog
    } else if index == 17 {
        CurveFamily::FourPl
    } else if index == 18 {
        CurveFamily::FivePl
    } else if index == 19 {
        CurveFamily::MichaelisMenten
    } else if index == 20 {
        CurveFamily::ExponentialBasic
    } else if index == 21 {
        CurveFamily::ExponentialLinear
    } else if index == 22 {
        CurveFamily::ExponentialHalfLife
    } else if index == 23 {
        CurveFamily::FallingExponential
    } else if index == 24 {
        CurveFamily::HyperbolicTangent
    } else if index == 25 {
        CurveFamily::ArctangentStep
    } else if index == 26 {
        CurveFamily::Softplus
    } else if index == 27 {
        CurveFamily::Power
    } else if index == 28 {
        CurveFamily::Gaussian
    } else if index == 29 {
        CurveFamily::Rational11
    } else if index == 30 {
        CurveFamily::Rational22
    } else if index == 31 {
        CurveFamily::Rational33
    } else if index == 32 {
        CurveFamily::Rational44
    } else if index == 33 {
        CurveFamily::Rational55
    } else if index == 34 {
        CurveFamily::Emg
    } else if index == 35 {
        CurveFamily::PseudoVoigt
    } else if index == 36 {
        CurveFamily::SaturatingTrendBasis1
    } else if index == 37 {
        CurveFamily::SaturatingTrendBasis2
    } else if index == 38 {
        CurveFamily::SaturatingTrendBasis3
    } else if index == 39 {
        CurveFamily::SaturatingTrendBasis4
    } else if index == 40 {
        CurveFamily::SaturatingTrendBasis5
    } else {
        CurveFamily::SaturatingTrendBasis6
    }
}
/// The rational `n/n` degree of a family, if it is rational.
pub open spec fn spec_rational_degree(family: CurveFamily) -> Option<nat> {
    match family {
        CurveFamily::Rational11 => Some(1),
        CurveFamily::Rational22 => Some(2),
        CurveFamily::Rational33 => Some(3),
        CurveFamily::Rational44 => Some(4),
        CurveFamily::Rational55 => Some(5),
        _ => None,
    }
}

/// The number of active saturation times of a family, if it is a saturating-trend basis.
pub open spec fn spec_tau_count(family: CurveFamily) -> Option<nat> {
    match family {
        CurveFamily::SaturatingTrendBasis1 => Some(1),
        CurveFamily::SaturatingTrendBasis2 => Some(2),
        CurveFamily::SaturatingTrendBasis3 => Some(3),
        CurveFamily::SaturatingTrendBasis4 => Some(4),
        CurveFamily::SaturatingTrendBasis5 => Some(5),
        CurveFamily::SaturatingTrendBasis6 => Some(6),
        _ => None,
    }
}

/// The polynomial degree of a family, if it is a polynomial.
pub open spec fn spec_polynomial_degree(family: CurveFamily) -> Option<nat> {
    match family {
        CurveFamily::Linear => Some(1),
        CurveFamily::Quadratic => Some(2),
        CurveFamily::Cubic => Some(3),
        CurveFamily::Quartic => Some(4),
        CurveFamily::Quintic => Some(5),
        CurveFamily::Sextic => Some(6),
        CurveFamily::Septic => Some(7),
        CurveFamily::Octic => Some(8),
        CurveFamily::Nonic => Some(9),
        _ => None,
    }
}

/// The `n/n` rational family chosen for a requested degree, clamped to `1..=5`.
pub open spec fn spec_from_rational_degree(degree: nat) -> CurveFamily {
    if degree <= 1 {
        CurveFamily::Rational11
    } else if degree == 2 {
        CurveFamily::Rational22
    } else if degree == 3 {
        CurveFamily::Rational33
    } else if degree == 4 {
        CurveFamily::Rational44
    } else {
        CurveFamily::Rational55
    }
}

/// The saturating-trend family chosen for a requested `tau` count, clamped to `1..=6`.
pub open spec fn spec_from_tau_count(count: nat) -> CurveFamily {
    if count <= 1 {
        CurveFamily::SaturatingTrendBasis1
    } else if count == 2 {
        CurveFamily::SaturatingTrendBasis2
    } else if count == 3 {
        CurveFamily::SaturatingTrendBasis3
    } else if count == 4 {
        CurveFamily::SaturatingTrendBasis4
    } else if count == 5 {
        CurveFamily::SaturatingTrendBasis5
    } else {
        CurveFamily::SaturatingTrendBasis6
    }
}

/// `value` limited to the closed range `[low, high]`.
pub open spec fn clamp_nat(value: nat, low: nat, high: nat) -> nat {
    if value < low {
        low
    } else if value > high {
        high
    } else {
        value
    }
}

/// Why a point set does not suit a family.
#[derive(Debug, Clone, Copy, PartialEq, Eq, Structural)]
pub enum FamilyPointsError {
    /// Fewer points than the family has parameters.
    TooFewPoints { len: usize, min_required: usize },
    /// The first point (by position) whose `x` is not positive, for a family that needs
    /// `x > 0`.
    NonPositiveX { index: usize },
}

/// The first position at or after `i` holding `false`, if any.
pub open spec fn first_non_positive_from(x_positive: Seq<bool>, i: int) -> Option<int>
    decreases x_positive.len() - i,
{
    if i < 0 || i >= x_positive.len() {
        None
    } else if !x_positive[i] {
        Some(i)
    } else {
        first_non_positive_from(x_positive, i + 1)
    }
}

/// The first position holding `false`, if any.
pub open spec fn first_non_positive(x_positive: Seq<bool>) -> Option<int> {
    first_non_positive_from(x_positive, 0)
}

/// From `i` on, the first `false` is the first at all when every earlier position holds
/// `true`.
proof fn lemma_first_non_positive_from(x_positive: Seq<bool>, i: int)
    requires
        0 <= i <= x_positive.len(),
        forall|k: int| 0 <= k < i ==> #[trigger] x_positive[k],
    ensures
        first_non_positive(x_positive) == first_non_positive_from(x_positive, i),
    decreases i,
{
    if i > 0 {
        lemma_first_non_positive_from(x_positive, i - 1);
    }
}

/// The check of a point set against a family, given which points have `x > 0`.
pub open spec fn spec_check_points(family: CurveFamily, x_positive: Seq<bool>) -> Result<(), FamilyPointsError> {
    if x_positive.len() < spec_min_points(family) {
        Err(FamilyPointsError::TooFewPoints { len: x_positive.len() as usize, min_required: spec_min_points(family) as usize })
    } else if spec_requires_positive_x(family) {
        match first_non_positive(x_positive) {
            Some(index) => Err(FamilyPointsError::NonPositiveX { index: index as usize }),
            None => Ok(()),
        }
    } else {
        Ok(())
    }
}

impl CurveFamily {
    /// The static metadata record of the family.
    pub fn metadata(self) -> (meta: CurveFamilyMetadata)
        ensures
            meta.label@ == spec_label(self),
            meta.parameter_names@.map_values(|name: &str| name@) == spec_parameter_names(self),
            meta.min_points == spec_min_points(self),
            meta.requires_positive_x == spec_requires_positive_x(self),
    {
        match self {
            CurveFamily::Linear => CurveFamilyMetadata {
                label: "Linear",
                parameter_names: &["a", "b"],
                min_points: 2,
                requires_positive_x: false,
            },
            CurveFamily::Quadratic => CurveFamilyMetadata {
                label: "Quadratic",
                parameter_names: &["a", "b", "c"],
                min_points: 3,
                requires_positive_x: false,
            },
            CurveFamily::Cubic => CurveFamilyMetadata {
                label: "Cubic",
                parameter_names: &["a", "b", "c", "d"],
                min_points: 4,
                requires_positive_x: false,
            },
            CurveFamily::Quartic => CurveFamilyMetadata {
                label: "Quartic",
                parameter_names: &["a", "b", "c", "d", "e"],
                min_points: 5,
                requires_positive_x: false,
            },
            CurveFamily::Quintic => CurveFamilyMetadata {
                label: "Quintic",
                parameter_names: &["a", "b", "c", "d", "e", "f"],
                min_points: 6,
                requires_positive_x: false,
            },
            CurveFamily::Sextic => CurveFamilyMetadata {
                label: "Sextic",
                parameter_names: &["a", "b", "c", "d", "e", "f", "g"],
                min_points: 7,
                requires_positive_x: false,
            },
            CurveFamily::Septic => CurveFamilyMetadata {
                label: "Septic",
                parameter_names: &["a", "b", "c", "d", "e", "f", "g", "h"],
                min_points: 8,
                requires_positive_x: false,
            },
            CurveFamily::Octic => CurveFamilyMetadata {
                label: "Octic",
                parameter_names: &["a", "b", "c", "d", "e", "f", "g", "h", "i"],
                min_points: 9,
                requires_positive_x: false,
            },
            CurveFamily::Nonic => CurveFamilyMetadata {
                label: "Nonic",
                parameter_names: &["a", "b", "c", "d", "e", "f", "g", "h", "i", "j"],
                min_points: 10,
                requires_positive_x: false,
            },
            CurveFamily::Arrhenius => CurveFamilyMetadata {
                label: "Arrhenius",
                parameter_names: &["A", "B"],
                min_points: 2,
                requires_positive_x: true,
            },
            CurveFamily::Inverse => CurveFamilyMetadata {
                label: "Inverse",
                parameter_names: &["A", "B"],
                min_points: 2,
                requires_positive_x: true,
            },
            CurveFamily::Logistic => CurveFamilyMetadata {
                label: "Logistic",
                parameter_names: &["A", "B", "C"],
                min_points: 3,
                requires_positive_x: false,
            },
            CurveFamily::Gompertz => CurveFamilyMetadata {
                label: "Gompertz",
                parameter_names: &["A", "B", "C"],
                min_points: 3,
                requires_positive_x: false,
            },
            CurveFamily::BiExponential => CurveFamilyMetadata {
                label: "Bi-Exponential",
                parameter_names: &["a1", "k1", "a2", "k2", "c"],
                min_points: 5,
                requires_positive_x: false,
            },
            CurveFamily::DampedSinusoid => CurveFamilyMetadata {
                label: "Damped Sinusoid",
                parameter_names: &["a", "k", "omega", "phi", "c"],
                min_points: 5,
                requires_positive_x: false,
            },
            CurveFamily::Lorentzian => CurveFamilyMetadata {
                label: "Lorentzian",
                parameter_names: &["A", "x0", "gamma", "C"],
                min_points: 4,
                requires_positive_x: false,
            },
            CurveFamily::NaturalLog => CurveFamilyMetadata {
                label: "Natural Log",
                parameter_names: &["A", "B"],
                min_points: 2,
                requires_positive_x: true,
            },
            CurveFamily::FourPl => CurveFamilyMetadata {
                label: "4PL",
                parameter_names: &["a", "b", "c", "d"],
                min_points: 4,
                requires_positive_x: true,
            },
            CurveFamily::FivePl => CurveFamilyMetadata {
                label: "5PL",
                parameter_names: &["a", "b", "c", "d", "m"],
                min_points: 5,
                requires_positive_x: true,
            },
            CurveFamily::MichaelisMenten => CurveFamilyMetadata {
                label: "Michaelis-Menten",
                parameter_names: &["Vmax", "Km"],
                min_points: 2,
                requires_positive_x: false,
            },
            CurveFamily::ExponentialBasic => CurveFamilyMetadata {
                label: "Exponential (Basic)",
                parameter_names: &["a", "b", "c"],
                min_points: 3,
                requires_positive_x: false,
            },
            CurveFamily::ExponentialLinear => CurveFamilyMetadata {
                label: "Exponential + Linear",
                parameter_names: &["a", "b", "c", "d"],
                min_points: 4,
                requires_positive_x: false,
            },
            CurveFamily::ExponentialHalfLife => CurveFamilyMetadata {
                label: "Exponential (Half-life)",
                parameter_names: &["a", "b", "c"],
                min_points: 3,
                requires_positive_x: false,
            },
            CurveFamily::FallingExponential => CurveFamilyMetadata {
                label: "Falling Exponential",
                parameter_names: &["Y0", "V0", "K"],
                min_points: 3,
                requires_positive_x: false,
            },
            CurveFamily::HyperbolicTangent => CurveFamilyMetadata {
                label: "Hyperbolic Tangent",
                parameter_names: &["a", "b", "c", "d"],
                min_points: 4,
                requires_positive_x: false,
            },
            CurveFamily::ArctangentStep => CurveFamilyMetadata {
                label: "Arctangent Step",
                parameter_names: &["a", "b", "c", "d"],
                min_points: 4,
                requires_positive_x: false,
            },
            CurveFamily::Softplus => CurveFamilyMetadata {
                label: "Softplus",
                parameter_names: &["a", "b", "c", "d"],
                min_points: 4,
                requires_positive_x: false,
            },
            CurveFamily::Power => CurveFamilyMetadata {
                label: "Power",
                parameter_names: &["a", "b"],
                min_points: 2,
                requires_positive_x: true,
            },
            CurveFamily::Gaussian => CurveFamilyMetadata {
                label: "Gaussian",
                parameter_names: &["a", "b", "c"],
                min_points: 3,
                requires_positive_x: false,
            },
            CurveFamily::Rational11 => CurveFamilyMetadata {
                label: "Rational (1/1)",
                parameter_names: &["a", "b", "c", "d"],
                min_points: 4,
                requires_positive_x: false,
            },
            CurveFamily::Rational22 => CurveFamilyMetadata {
                label: "Rational (2/2)",
                parameter_names: &["a", "b", "c", "d", "e"],
                min_points: 5,
                requires_positive_x: false,
            },
            CurveFamily::Rational33 => CurveFamilyMetadata {
                label: "Rational (3/3)",
                parameter_names: &["a", "b", "c", "d", "e", "f", "g"],
                min_points: 7,
                requires_positive_x: false,
            },
            CurveFamily::Rational44 => CurveFamilyMetadata {
                label: "Rational (4/4)",
                parameter_names: &["a", "b", "c", "d", "e", "f", "g", "h", "i"],
                min_points: 9,
                requires_positive_x: false,
            },
            CurveFamily::Rational55 => CurveFamilyMetadata {
                label: "Rational (5/5)",
                parameter_names: &["a", "b", "c", "d", "e", "f", "g", "h", "i", "j", "k"],
                min_points: 11,
                requires_positive_x: false,
            },
            CurveFamily::Emg => CurveFamilyMetadata {
                label: "EMG",
                parameter_names: &["a", "mu", "sigma", "tau", "c"],
                min_points: 5,
                requires_positive_x: false,
            },
            CurveFamily::PseudoVoigt => CurveFamilyMetadata {
                label: "Pseudo-Voigt",
                parameter_names: &["a", "x0", "sigma", "gamma", "eta", "c"],
                min_points: 6,
                requires_positive_x: false,
            },
            CurveFamily::SaturatingTrendBasis1 => CurveFamilyMetadata {
                label: "Saturating Trend Basis (1 tau)",
                parameter_names: &["c", "w1"],
                min_points: 2,
                requires_positive_x: false,
            },
            CurveFamily::SaturatingTrendBasis2 => CurveFamilyMetadata {
                label: "Saturating Trend Basis (2 tau)",
                parameter_names: &["c", "w1", "w2"],
                min_points: 3,
                requires_positive_x: false,
            },
            CurveFamily::SaturatingTrendBasis3 => CurveFamilyMetadata {
                label: "Saturating Trend Basis (3 tau)",
                parameter_names: &["c", "w1", "w2", "w3"],
                min_points: 4,
                requires_positive_x: false,
            },
            CurveFamily::SaturatingTrendBasis4 => CurveFamilyMetadata {
                label: "Saturating Trend Basis (4 tau)",
                parameter_names: &["c", "w1", "w2", "w3", "w4"],
                min_points: 5,
                requires_positive_x: false,
            },
            CurveFamily::SaturatingTrendBasis5 => CurveFamilyMetadata {
                label: "Saturating Trend Basis (5 tau)",
                parameter_names: &["c", "w1", "w2", "w3", "w4", "w5"],
                min_points: 6,
                requires_positive_x: false,
            },
            CurveFamily::SaturatingTrendBasis6 => CurveFamilyMetadata {
                label: "Saturating Trend Basis (6 tau)",
                parameter_names: &["c", "w1", "w2", "w3", "w4", "w5", "w6"],
                min_points: 7,
                requires_positive_x: false,
            },
        }
    }
    /// Every family once, in the stable order of [`spec_family_at`].
    pub fn all() -> (families: Vec<CurveFamily>)
        ensures
            families@.len() == CURVE_FAMILY_COUNT,
            forall|k: int| 0 <= k < CURVE_FAMILY_COUNT ==> #[trigger] families@[k] == spec_family_at(k as nat),
    {
        let families = vec![
            CurveFamily::Linear,
            CurveFamily::Quadratic,
            CurveFamily::Cubic,
            CurveFamily::Quartic,
            CurveFamily::Quintic,
            CurveFamily::Sextic,
            CurveFamily::Septic,
            CurveFamily::Octic,
            CurveFamily::Nonic,
            CurveFamily::Arrhenius,
            CurveFamily::Inverse,
            CurveFamily::Logistic,
            CurveFamily::Gompertz,
            CurveFamily::BiExponential,
            CurveFamily::DampedSinusoid,
            CurveFamily::Lorentzian,
            CurveFamily::NaturalLog,
            CurveFamily::FourPl,
            CurveFamily::FivePl,
            CurveFamily::MichaelisMenten,
            CurveFamily::ExponentialBasic,
            CurveFamily::ExponentialLinear,
            CurveFamily::ExponentialHalfLife,
            CurveFamily::FallingExponential,
            CurveFamily::HyperbolicTangent,
            CurveFamily::ArctangentStep,
            CurveFamily::Softplus,
            CurveFamily::Power,
            CurveFamily::Gaussian,
            CurveFamily::Rational11,
            CurveFamily::Rational22,
            CurveFamily::Rational33,
            CurveFamily::Rational44,
            CurveFamily::Rational55,
            CurveFamily::Emg,
            CurveFamily::PseudoVoigt,
            CurveFamily::SaturatingTrendBasis1,
            CurveFamily::SaturatingTrendBasis2,
            CurveFamily::SaturatingTrendBasis3,
            CurveFamily::SaturatingTrendBasis4,
            CurveFamily::SaturatingTrendBasis5,
            CurveFamily::SaturatingTrendBasis6,
        ];
        families
    }

    /// The short human-readable name of the family.
    pub fn label(self) -> (label: &'static str)
        ensures
            label@ == spec_label(self),
    {
        self.metadata().label
    }

    /// The parameter names, in the order of the family's value vector.
    pub fn parameter_names(self) -> (names: &'static [&'static str])
        ensures
            names@.map_values(|name: &str| name@) == spec_parameter_names(self),
    {
        self.metadata().parameter_names
    }

    /// Whether the family is a polynomial of degree `1..=9`.
    pub fn is_polynomial(self) -> (result: bool)
        ensures
            result == spec_polynomial_degree(self).is_some(),
    {
        matches!(
            self,
            CurveFamily::Linear | CurveFamily::Quadratic | CurveFamily::Cubic | CurveFamily::Quartic
                | CurveFamily::Quintic | CurveFamily::Sextic | CurveFamily::Septic
                | CurveFamily::Octic | CurveFamily::Nonic
        )
    }

    /// Whether the family is an `n/n` rational model.
    pub fn is_rational(self) -> (result: bool)
        ensures
            result == spec_rational_degree(self).is_some(),
    {
        matches!(
            self,
            CurveFamily::Rational11 | CurveFamily::Rational22 | CurveFamily::Rational33
                | CurveFamily::Rational44 | CurveFamily::Rational55
        )
    }

    /// Whether the family is a saturating-trend basis over a prefix of the fixed `tau` grid.
    pub fn is_saturating_trend_basis(self) -> (result: bool)
        ensures
            result == spec_tau_count(self).is_some(),
    {
        matches!(
            self,
            CurveFamily::SaturatingTrendBasis1 | CurveFamily::SaturatingTrendBasis2
                | CurveFamily::SaturatingTrendBasis3 | CurveFamily::SaturatingTrendBasis4
                | CurveFamily::SaturatingTrendBasis5 | CurveFamily::SaturatingTrendBasis6
        )
    }

    /// The `n/n` rational family of a degree; the degree is first clamped to the supported range.
    pub fn from_rational_degree(degree: usize) -> (family: CurveFamily)
        ensures
            family == spec_from_rational_degree(degree as nat),
            spec_rational_degree(family) == Some(
                clamp_nat(degree as nat, MIN_RATIONAL_DEGREE as nat, MAX_RATIONAL_DEGREE as nat),
            ),
    {
        if degree <= 1 {
            CurveFamily::Rational11
        } else if degree == 2 {
            CurveFamily::Rational22
        } else if degree == 3 {
            CurveFamily::Rational33
        } else if degree == 4 {
            CurveFamily::Rational44
        } else {
            CurveFamily::Rational55
        }
    }

    /// The degree of an `n/n` rational family, `None` for other families.
    pub fn rational_degree(self) -> (degree: Option<usize>)
        ensures
            degree matches Some(d) ==> spec_rational_degree(self) == Some(d as nat),
            degree is None ==> spec_rational_degree(self) is None,
    {
        match self {
            CurveFamily::Rational11 => Some(1),
            CurveFamily::Rational22 => Some(2),
            CurveFamily::Rational33 => Some(3),
            CurveFamily::Rational44 => Some(4),
            CurveFamily::Rational55 => Some(5),
            _ => None,
        }
    }

    /// The saturating-trend family with a number of active `tau`; the count is first clamped.
    pub fn from_saturating_trend_tau_count(count: usize) -> (family: CurveFamily)
        ensures
            family == spec_from_tau_count(count as nat),
            spec_tau_count(family) == Some(
                clamp_nat(
                    count as nat,
                    MIN_SATURATING_TREND_TAU_COUNT as nat,
                    MAX_SATURATING_TREND_TAU_COUNT as nat,
                ),
            ),
    {
        if count <= 1 {
            CurveFamily::SaturatingTrendBasis1
        } else if count == 2 {
            CurveFamily::SaturatingTrendBasis2
        } else if count == 3 {
            CurveFamily::SaturatingTrendBasis3
        } else if count == 4 {
            CurveFamily::SaturatingTrendBasis4
        } else if count == 5 {
            CurveFamily::SaturatingTrendBasis5
        } else {
            CurveFamily::SaturatingTrendBasis6
        }
    }

    /// The number of active `tau` of a saturating-trend family, `None` for other families.
    pub fn saturating_trend_tau_count(self) -> (count: Option<usize>)
        ensures
            count matches Some(c) ==> spec_tau_count(self) == Some(c as nat),
            count is None ==> spec_tau_count(self) is None,
    {
        match self {
            CurveFamily::SaturatingTrendBasis1 => Some(1),
            CurveFamily::SaturatingTrendBasis2 => Some(2),
            CurveFamily::SaturatingTrendBasis3 => Some(3),
            CurveFamily::SaturatingTrendBasis4 => Some(4),
            CurveFamily::SaturatingTrendBasis5 => Some(5),
            CurveFamily::SaturatingTrendBasis6 => Some(6),
            _ => None,
        }
    }

    /// The number of model parameters.
    pub fn parameter_count(self) -> (count: usize)
        ensures
            count == spec_parameter_names(self).len(),
    {
        self.parameter_names().len()
    }

    /// The smallest number of points a stable fit needs.
    pub fn min_points(self) -> (count: usize)
        ensures
            count == spec_min_points(self),
    {
        self.metadata().min_points
    }

    /// Whether the family is only defined for `x > 0`.
    pub fn requires_positive_x(self) -> (result: bool)
        ensures
            result == spec_requires_positive_x(self),
    {
        self.metadata().requires_positive_x
    }

    /// Checks a point set against the family: at least `min_points` points, and, where the
    /// family needs `x > 0`, the first point whose `x` is not positive is rejected.
    /// `x_positive[i]` tells whether point `i` has `x > 0`; its length is the point count.
    pub fn check_points(self, x_positive: &[bool]) -> (checked: Result<(), FamilyPointsError>)
        ensures
            checked == spec_check_points(self, x_positive@),
    {
        let len = x_positive.len();
        let min_required = self.min_points();
        if len < min_required {
            return Err(FamilyPointsError::TooFewPoints { len, min_required });
        }
        if self.requires_positive_x() {
            let mut index: usize = 0;
            while index < len
                invariant
                    index <= len == x_positive@.len(),
                    x_positive@.len() >= spec_min_points(self),
                    spec_requires_positive_x(self),
                    forall|i: int| 0 <= i < index ==> #[trigger] x_positive@[i],
                decreases len - index,
            {
                if !x_positive[index] {
                    proof {
                        lemma_first_non_positive_from(x_positive@, index as int);
                    }
                    return Err(FamilyPointsError::NonPositiveX { index });
                }
                index = index + 1;
            }
            proof {
                lemma_first_non_positive_from(x_positive@, len as int);
            }
        }
        Ok(())
    }

    /// Whether scaling normalization of `x` and `y` is allowed for the family.
    ///
    /// The `tau` grid of a saturating-trend basis is expressed in units of the raw `x`,
    /// so normalizing `x` would change the meaning of the basis functions.
    pub fn supports_parametric_normalization(self) -> (result: bool)
        ensures
            result == !spec_tau_count(self).is_some(),
    {
        !self.is_saturating_trend_basis()
    }
}

/// Asking for the degree of a rational family gives back that family, and every
/// requested degree yields a rational family whose degree is the clamped request.
pub proof fn lemma_rational_degree_round_trip(family: CurveFamily, degree: nat)
    ensures
        spec_rational_degree(family) matches Some(d) ==> spec_from_rational_degree(d) == family,
        spec_rational_degree(spec_from_rational_degree(degree)) == Some(
            clamp_nat(degree, MIN_RATIONAL_DEGREE as nat, MAX_RATIONAL_DEGREE as nat),
        ),
{
}

/// Asking for the `tau` count of a saturating-trend family gives back that family, and every
/// requested count yields a saturating-trend family whose count is the clamped request.
pub proof fn lemma_tau_count_round_trip(family: CurveFamily, count: nat)
    ensures
        spec_tau_count(family) matches Some(c) ==> spec_from_tau_count(c) == family,
        spec_tau_count(spec_from_tau_count(count)) == Some(
            clamp_nat(count, MIN_SATURATING_TREND_TAU_COUNT as nat, MAX_SATURATING_TREND_TAU_COUNT as nat),
        ),
{
}

/// Every family needs exactly as many points as it has parameters.
pub proof fn lemma_min_points_equals_parameter_count(family: CurveFamily)
    ensures
        spec_min_points(family) == spec_parameter_names(family).len(),
{
}

/// Parameter counts of the indexed families: a polynomial of degree `d` has `d + 1`
/// coefficients, a saturating-trend basis with `k` active `tau` has `k + 1` weights, and an
/// `n/n` rational model has `2n + 1` coefficients, except `1/1`, which has four.
pub proof fn lemma_parameter_count_by_index(family: CurveFamily)
    ensures
        spec_polynomial_degree(family) matches Some(d) ==> spec_parameter_names(family).len() == d + 1,
        spec_tau_count(family) matches Some(k) ==> spec_parameter_names(family).len() == k + 1,
        spec_rational_degree(family) matches Some(n) ==> spec_parameter_names(family).len() == (
        if n == 1 {
            4
        } else {
            2 * n + 1
        }),
{
}

/// The families of the polynomial, rational and saturating-trend kinds are disjoint.
pub proof fn lemma_family_kinds_disjoint(family: CurveFamily)
    ensures
        spec_polynomial_degree(family).is_some() ==> spec_rational_degree(family) is None
            && spec_tau_count(family) is None,
        spec_rational_degree(family).is_some() ==> spec_tau_count(family) is None,
{
}

/// The stable ordering lists every family exactly once.
pub proof fn lemma_family_ordering_is_a_bijection(family: CurveFamily, index: nat)
    ensures
        spec_family_index(family) < CURVE_FAMILY_COUNT,
        spec_family_at(spec_family_index(family)) == family,
        index < CURVE_FAMILY_COUNT ==> spec_family_index(spec_family_at(index)) == index,
{
}


/// Different families have different labels.
pub proof fn lemma_labels_are_distinct(family: CurveFamily, other: CurveFamily)
    requires
        family != other,
    ensures
        spec_label(family) != spec_label(other),
{
    reveal_strlit("Linear");
    reveal_strlit("Quadratic");
    reveal_strlit("Cubic");
    reveal_strlit("Quartic");
    reveal_strlit("Quintic");
    reveal_strlit("Sextic");
    reveal_strlit("Septic");
    reveal_strlit("Octic");
    reveal_strlit("Nonic");
    reveal_strlit("Arrhenius");
    reveal_strlit("Inverse");
    reveal_strlit("Logistic");
    reveal_strlit("Gompertz");
    reveal_strlit("Bi-Exponential");
    reveal_strlit("Damped Sinusoid");
    reveal_strlit("Lorentzian");
    reveal_strlit("Natural Log");
    reveal_strlit("4PL");
    reveal_strlit("5PL");
    reveal_strlit("Michaelis-Menten");
    reveal_strlit("Exponential (Basic)");
    reveal_strlit("Exponential + Linear");
    reveal_strlit("Exponential (Half-life)");
    reveal_strlit("Falling Exponential");
    reveal_strlit("Hyperbolic Tangent");
    reveal_strlit("Arctangent Step");
    reveal_strlit("Softplus");
    reveal_strlit("Power");
    reveal_strlit("Gaussian");
    reveal_strlit("Rational (1/1)");
    reveal_strlit("Rational (2/2)");
    reveal_strlit("Rational (3/3)");
    reveal_strlit("Rational (4/4)");
    reveal_strlit("Rational (5/5)");
    reveal_strlit("EMG");
    reveal_strlit("Pseudo-Voigt");
    reveal_strlit("Saturating Trend Basis (1 tau)");
    reveal_strlit("Saturating Trend Basis (2 tau)");
    reveal_strlit("Saturating Trend Basis (3 tau)");
    reveal_strlit("Saturating Trend Basis (4 tau)");
    reveal_strlit("Saturating Trend Basis (5 tau)");
    reveal_strlit("Saturating Trend Basis (6 tau)");
    let a = spec_label(family);
    let b = spec_label(other);
    if a == b {
        assert(a.len() == b.len());
        assert(a[0] == b[0]);
        assert(a[1] == b[1]);
        assert(a[2] == b[2]);
        assert(a[3] == b[3]);
        assert(a[4] == b[4]);
        assert(a[5] == b[5]);
        assert(a[6] == b[6]);
        assert(a[7] == b[7]);
        assert(a[8] == b[8]);
        assert(a[9] == b[9]);
        assert(a[10] == b[10]);
        assert(a[11] == b[11]);
        assert(a[12] == b[12]);
        assert(a[13] == b[13]);
        assert(a[14] == b[14]);
        assert(a[15] == b[15]);
        assert(a[16] == b[16]);
        assert(a[17] == b[17]);
        assert(a[18] == b[18]);
        assert(a[19] == b[19]);
        assert(a[20] == b[20]);
        assert(a[21] == b[21]);
        assert(a[22] == b[22]);
        assert(a[23] == b[23]);
        assert(a[24] == b[24]);
        assert(a[25] == b[25]);
        assert(a[26] == b[26]);
        assert(a[27] == b[27]);
        assert(a[28] == b[28]);
        assert(a[29] == b[29]);
    }
}

/// Within a family, the parameter names are pairwise distinct.
pub proof fn lemma_parameter_names_are_distinct(family: CurveFamily, i: int, j: int)
    requires
        0 <= i < j < spec_parameter_names(family).len(),
    ensures
        spec_parameter_names(family)[i] != spec_parameter_names(family)[j],
{
    reveal_strlit("A");
    reveal_strlit("B");
    reveal_strlit("C");
    reveal_strlit("K");
    reveal_strlit("Km");
    reveal_strlit("V0");
    reveal_strlit("Vmax");
    reveal_strlit("Y0");
    reveal_strlit("a");
    reveal_strlit("a1");
    reveal_strlit("a2");
    reveal_strlit("b");
    reveal_strlit("c");
    reveal_strlit("d");
    reveal_strlit("e");
    reveal_strlit("eta");
    reveal_strlit("f");
    reveal_strlit("g");
    reveal_strlit("gamma");
    reveal_strlit("h");
    reveal_strlit("i");
    reveal_strlit("j");
    reveal_strlit("k");
    reveal_strlit("k1");
    reveal_strlit("k2");
    reveal_strlit("m");
    reveal_strlit("mu");
    reveal_strlit("omega");
    reveal_strlit("phi");
    reveal_strlit("sigma");
    reveal_strlit("tau");
    reveal_strlit("w1");
    reveal_strlit("w2");
    reveal_strlit("w3");
    reveal_strlit("w4");
    reveal_strlit("w5");
    reveal_strlit("w6");
    reveal_strlit("x0");
    let x = spec_parameter_names(family)[i];
    let y = spec_parameter_names(family)[j];
    if x == y {
        assert(x.len() == y.len());
        assert(x[0] == y[0]);
        assert(x[1] == y[1]);
        assert(x[2] == y[2]);
        assert(x[3] == y[3]);
        assert(x[4] == y[4]);
    }
}

} // verus!
