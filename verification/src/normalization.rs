//! The scaling plan of parameter normalization.
//!
//! Data are normalized as `x / x_scale` and `y / y_scale`; each parameter then scales by
//! `x_scale^x_exp * y_scale^y_exp`. This module decides those exponents per family; the
//! arithmetic on the values is done by the caller.

use vstd::prelude::*;
use crate::family::{
    spec_parameter_names, spec_polynomial_degree, spec_rational_degree, CurveFamily,
};

verus! {

/// The exponents of `x_scale` and `y_scale` in one parameter's scale factor.
#[derive(Debug, Clone, Copy, PartialEq, Eq, Structural)]
pub struct ParamScale {
    pub x_exp: i32,
    pub y_exp: i32,
}

impl ParamScale {
    /// A scale with the given exponents.
    pub fn new(x_exp: i32, y_exp: i32) -> (scale: ParamScale)
        ensures
            scale.x_exp == x_exp,
            scale.y_exp == y_exp,
    {
        ParamScale { x_exp, y_exp }
    }
}

/// Which way parameters are converted.
#[derive(Debug, Clone, Copy, PartialEq, Eq, Structural)]
pub enum ScaleDirection {
    ToNormalized,
    FromNormalized,
}

impl ScaleDirection {
    /// The start of the message of a failed conversion.
    pub fn error_prefix(self) -> (prefix: &'static str)
        ensures
            prefix@ == (match self {
                ScaleDirection::ToNormalized => "Failed to normalize parameters"@,
                ScaleDirection::FromNormalized => "Failed to denormalize parameters"@,
            }),
    {
        match self {
            ScaleDirection::ToNormalized => "Failed to normalize parameters",
            ScaleDirection::FromNormalized => "Failed to denormalize parameters",
        }
    }
}

/// The exponent pairs of a list of scales.
pub open spec fn scale_views(scales: Seq<ParamScale>) -> Seq<(int, int)> {
    scales.map_values(|s: ParamScale| (s.x_exp as int, s.y_exp as int))
}

/// The exponents of the fixed scale table of a family, `None` for families whose scales
/// are derived (polynomial, rational) or depend on a parameter value (power).
pub open spec fn spec_static_scales(family: CurveFamily) -> Option<Seq<(int, int)>> {
    match family {
        CurveFamily::Arrhenius => Some(seq![(0, -1), (-1, 0)]),
        CurveFamily::Inverse => Some(seq![(0, -1), (-1, -1)]),
        CurveFamily::Logistic => Some(seq![(0, -1), (1, 0), (-1, 0)]),
        CurveFamily::Gompertz => Some(seq![(0, -1), (1, 0), (-1, 0)]),
        CurveFamily::BiExponential => Some(seq![(0, -1), (1, 0), (0, -1), (1, 0), (0, -1)]),
        CurveFamily::DampedSinusoid => Some(seq![(0, -1), (1, 0), (1, 0), (0, 0), (0, -1)]),
        CurveFamily::Lorentzian => Some(seq![(0, -1), (-1, 0), (-1, 0), (0, -1)]),
        CurveFamily::NaturalLog => Some(seq![(0, -1), (-1, 0)]),
        CurveFamily::MichaelisMenten => Some(seq![(0, -1), (-1, 0)]),
        CurveFamily::FourPl => Some(seq![(0, -1), (0, 0), (-1, 0), (0, -1)]),
        CurveFamily::FivePl => Some(seq![(0, -1), (0, 0), (-1, 0), (0, -1), (0, 0)]),
        CurveFamily::ExponentialBasic => Some(seq![(0, -1), (0, -1), (1, 0)]),
        CurveFamily::ExponentialLinear => Some(seq![(0, -1), (1, 0), (1, -1), (0, -1)]),
        CurveFamily::ExponentialHalfLife => Some(seq![(0, -1), (0, -1), (-1, 0)]),
        CurveFamily::FallingExponential => Some(seq![(0, -1), (1, -1), (1, 0)]),
        CurveFamily::HyperbolicTangent => Some(seq![(0, -1), (1, 0), (-1, 0), (0, -1)]),
        CurveFamily::ArctangentStep => Some(seq![(0, -1), (1, 0), (-1, 0), (0, -1)]),
        CurveFamily::Softplus => Some(seq![(0, -1), (1, 0), (-1, 0), (0, -1)]),
        CurveFamily::Gaussian => Some(seq![(0, -1), (-1, 0), (-1, 0)]),
        CurveFamily::Emg => Some(seq![(-1, -1), (-1, 0), (-1, 0), (-1, 0), (0, -1)]),
        CurveFamily::PseudoVoigt => Some(seq![(0, -1), (-1, 0), (-1, 0), (-1, 0), (0, 0), (0, -1)]),
        CurveFamily::SaturatingTrendBasis1 => Some(seq![(0, -1), (0, -1)]),
        CurveFamily::SaturatingTrendBasis2 => Some(seq![(0, -1), (0, -1), (0, -1)]),
        CurveFamily::SaturatingTrendBasis3 => Some(seq![(0, -1), (0, -1), (0, -1), (0, -1)]),
        CurveFamily::SaturatingTrendBasis4 => Some(seq![(0, -1), (0, -1), (0, -1), (0, -1), (0, -1)]),
        CurveFamily::SaturatingTrendBasis5 => Some(seq![(0, -1), (0, -1), (0, -1), (0, -1), (0, -1), (0, -1)]),
        CurveFamily::SaturatingTrendBasis6 => Some(seq![(0, -1), (0, -1), (0, -1), (0, -1), (0, -1), (0, -1), (0, -1)]),
        _ => None,
    }
}

/// The fixed scale table of a family; see [`spec_static_scales`].
pub fn static_param_scales(family: CurveFamily) -> (scales: Option<Vec<ParamScale>>)
    ensures
        scales matches Some(v) ==> spec_static_scales(family) == Some(scale_views(v@)),
        scales is None ==> spec_static_scales(family) is None,
{
    let table: Option<Vec<ParamScale>> = match family {
        CurveFamily::Arrhenius => Some(vec![ParamScale::new(0, -1), ParamScale::new(-1, 0)]),
        CurveFamily::Inverse => Some(vec![ParamScale::new(0, -1), ParamScale::new(-1, -1)]),
        CurveFamily::Logistic => Some(vec![ParamScale::new(0, -1), ParamScale::new(1, 0), ParamScale::new(-1, 0)]),
        CurveFamily::Gompertz => Some(vec![ParamScale::new(0, -1), ParamScale::new(1, 0), ParamScale::new(-1, 0)]),
        CurveFamily::BiExponential => Some(vec![ParamScale::new(0, -1), ParamScale::new(1, 0), ParamScale::new(0, -1), ParamScale::new(1, 0), ParamScale::new(0, -1)]),
        CurveFamily::DampedSinusoid => Some(vec![ParamScale::new(0, -1), ParamScale::new(1, 0), ParamScale::new(1, 0), ParamScale::new(0, 0), ParamScale::new(0, -1)]),
        CurveFamily::Lorentzian => Some(vec![ParamScale::new(0, -1), ParamScale::new(-1, 0), ParamScale::new(-1, 0), ParamScale::new(0, -1)]),
        CurveFamily::NaturalLog => Some(vec![ParamScale::new(0, -1), ParamScale::new(-1, 0)]),
        CurveFamily::MichaelisMenten => Some(vec![ParamScale::new(0, -1), ParamScale::new(-1, 0)]),
        CurveFamily::FourPl => Some(vec![ParamScale::new(0, -1), ParamScale::new(0, 0), ParamScale::new(-1, 0), ParamScale::new(0, -1)]),
        CurveFamily::FivePl => Some(vec![ParamScale::new(0, -1), ParamScale::new(0, 0), ParamScale::new(-1, 0), ParamScale::new(0, -1), ParamScale::new(0, 0)]),
        CurveFamily::ExponentialBasic => Some(vec![ParamScale::new(0, -1), ParamScale::new(0, -1), ParamScale::new(1, 0)]),
        CurveFamily::ExponentialLinear => Some(vec![ParamScale::new(0, -1), ParamScale::new(1, 0), ParamScale::new(1, -1), ParamScale::new(0, -1)]),
        CurveFamily::ExponentialHalfLife => Some(vec![ParamScale::new(0, -1), ParamScale::new(0, -1), ParamScale::new(-1, 0)]),
        CurveFamily::FallingExponential => Some(vec![ParamScale::new(0, -1), ParamScale::new(1, -1), ParamScale::new(1, 0)]),
        CurveFamily::HyperbolicTangent => Some(vec![ParamScale::new(0, -1), ParamScale::new(1, 0), ParamScale::new(-1, 0), ParamScale::new(0, -1)]),
        CurveFamily::ArctangentStep => Some(vec![ParamScale::new(0, -1), ParamScale::new(1, 0), ParamScale::new(-1, 0), ParamScale::new(0, -1)]),
        CurveFamily::Softplus => Some(vec![ParamScale::new(0, -1), ParamScale::new(1, 0), ParamScale::new(-1, 0), ParamScale::new(0, -1)]),
        CurveFamily::Gaussian => Some(vec![ParamScale::new(0, -1), ParamScale::new(-1, 0), ParamScale::new(-1, 0)]),
        CurveFamily::Emg => Some(vec![ParamScale::new(-1, -1), ParamScale::new(-1, 0), ParamScale::new(-1, 0), ParamScale::new(-1, 0), ParamScale::new(0, -1)]),
        CurveFamily::PseudoVoigt => Some(vec![ParamScale::new(0, -1), ParamScale::new(-1, 0), ParamScale::new(-1, 0), ParamScale::new(-1, 0), ParamScale::new(0, 0), ParamScale::new(0, -1)]),
        CurveFamily::SaturatingTrendBasis1 => Some(vec![ParamScale::new(0, -1), ParamScale::new(0, -1)]),
        CurveFamily::SaturatingTrendBasis2 => Some(vec![ParamScale::new(0, -1), ParamScale::new(0, -1), ParamScale::new(0, -1)]),
        CurveFamily::SaturatingTrendBasis3 => Some(vec![ParamScale::new(0, -1), ParamScale::new(0, -1), ParamScale::new(0, -1), ParamScale::new(0, -1)]),
        CurveFamily::SaturatingTrendBasis4 => Some(vec![ParamScale::new(0, -1), ParamScale::new(0, -1), ParamScale::new(0, -1), ParamScale::new(0, -1), ParamScale::new(0, -1)]),
        CurveFamily::SaturatingTrendBasis5 => Some(vec![ParamScale::new(0, -1), ParamScale::new(0, -1), ParamScale::new(0, -1), ParamScale::new(0, -1), ParamScale::new(0, -1), ParamScale::new(0, -1)]),
        CurveFamily::SaturatingTrendBasis6 => Some(vec![ParamScale::new(0, -1), ParamScale::new(0, -1), ParamScale::new(0, -1), ParamScale::new(0, -1), ParamScale::new(0, -1), ParamScale::new(0, -1), ParamScale::new(0, -1)]),
        _ => None,
    };
    table
}
/// The scales of a polynomial with `count` coefficients, highest power first: the
/// coefficient of `x^p` scales as `x_scale^p / y_scale`.
pub open spec fn spec_polynomial_scales(count: nat) -> Seq<(int, int)> {
    Seq::new(count, |i: int| ((count - 1 - i) as int, -1int))
}

/// The scales of an `n/n` rational model. For `1/1` (`d + (a·x + b)/(1 + c·x)`) they are
/// fixed; otherwise the numerator coefficients (highest power first) scale as
/// `x_scale^p / y_scale` and the denominator coefficients of `x^p` as `x_scale^p`.
pub open spec fn spec_rational_scales(degree: nat) -> Seq<(int, int)> {
    if degree == 1 {
        seq![(1, -1), (0, -1), (1, 0), (0, -1)]
    } else {
        Seq::new(
            2 * degree + 1,
            |i: int|
                if i <= degree {
                    ((degree - i) as int, -1int)
                } else {
                    ((i - degree) as int, 0int)
                },
        )
    }
}

/// The scaling plan of a family: derived for polynomials and rational models, fixed for
/// the others, and `None` for the power law, whose scale depends on its exponent.
pub open spec fn spec_scale_plan(family: CurveFamily) -> Option<Seq<(int, int)>> {
    if spec_polynomial_degree(family).is_some() {
        Some(spec_polynomial_scales(spec_parameter_names(family).len()))
    } else if let Some(degree) = spec_rational_degree(family) {
        Some(spec_rational_scales(degree))
    } else {
        spec_static_scales(family)
    }
}

/// The scales of a polynomial with `count` coefficients.
pub fn polynomial_param_scales(count: usize) -> (scales: Vec<ParamScale>)
    requires
        count <= 11,
    ensures
        scale_views(scales@) == spec_polynomial_scales(count as nat),
{
    let mut scales: Vec<ParamScale> = Vec::new();
    let mut index: usize = 0;
    while index < count
        invariant
            index <= count <= 11,
            scale_views(scales@) =~= spec_polynomial_scales(count as nat).take(index as int),
        decreases count - index,
    {
        let power = (count - 1 - index) as i32;
        let ghost before = scales@;
        let scale = ParamScale::new(power, -1);
        scales.push(scale);
        proof {
            assert(scale_views(scales@) =~= scale_views(before).push((power as int, -1int)));
        }
        index = index + 1;
    }
    scales
}

/// The scales of an `n/n` rational model.
pub fn rational_param_scales(degree: usize) -> (scales: Vec<ParamScale>)
    requires
        1 <= degree <= 5,
    ensures
        scale_views(scales@) == spec_rational_scales(degree as nat),
{
    if degree == 1 {
        let scales = vec![
            ParamScale::new(1, -1),
            ParamScale::new(0, -1),
            ParamScale::new(1, 0),
            ParamScale::new(0, -1),
        ];
        proof {
            assert(scale_views(scales@) =~= spec_rational_scales(1));
        }
        return scales;
    }
    let mut scales: Vec<ParamScale> = Vec::new();
    let mut index: usize = 0;
    while index < 2 * degree + 1
        invariant
            2 <= degree <= 5,
            index <= 2 * degree + 1,
            scale_views(scales@) =~= spec_rational_scales(degree as nat).take(index as int),
        decreases 2 * degree + 1 - index,
    {
        let ghost before = scales@;
        let scale = if index <= degree {
            ParamScale::new((degree - index) as i32, -1)
        } else {
            ParamScale::new((index - degree) as i32, 0)
        };
        scales.push(scale);
        proof {
            assert(scale_views(scales@) =~= scale_views(before).push(
                (scale.x_exp as int, scale.y_exp as int),
            ));
        }
        index = index + 1;
    }
    scales
}

/// The scaling plan of a family; see [`spec_scale_plan`].
pub fn param_scale_plan(family: CurveFamily) -> (plan: Option<Vec<ParamScale>>)
    ensures
        plan matches Some(v) ==> spec_scale_plan(family) == Some(scale_views(v@)),
        plan is None ==> spec_scale_plan(family) is None,
{
    if family.is_polynomial() {
        Some(polynomial_param_scales(family.parameter_count()))
    } else if let Some(degree) = family.rational_degree() {
        Some(rational_param_scales(degree))
    } else {
        static_param_scales(family)
    }
}

/// Every family but the power law has a plan with one scale per parameter, so conversion
/// never meets a table of the wrong length.
pub proof fn lemma_scale_plan_covers_parameters(family: CurveFamily)
    ensures
        family != CurveFamily::Power ==> (spec_scale_plan(family) matches Some(plan) && plan.len()
            == spec_parameter_names(family).len()),
        family == CurveFamily::Power ==> spec_scale_plan(family) is None,
{
}

} // verus!
