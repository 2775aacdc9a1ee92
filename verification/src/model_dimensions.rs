//! The model behind each curve family as a term over `x` and the parameters, and the law
//! that parameter normalization keeps every model the same curve: with data scaled as
//! `x / x_scale` and `y / y_scale`, a parameter whose plan is `(x_exp, y_exp)` carries the
//! physical dimension `x^-x_exp · y^-y_exp`, and under those dimensions every model is
//! dimensionally consistent and has the dimension of `y`. Then
//! `f_p(x) = y_scale · f_normalize(p)(x / x_scale)`.

use vstd::prelude::*;
use crate::family::{spec_parameter_names, spec_polynomial_degree, spec_rational_degree, CurveFamily};
use crate::normalization::{spec_polynomial_scales, spec_rational_scales, spec_scale_plan};

verus! {

/// A model's right-hand side, built from `x`, the parameters and dimensionless numbers.
pub enum ModelTerm {
    /// The variable `x`.
    X,
    /// `x` to a fixed whole power.
    XPower(nat),
    /// A fixed length on the `x` axis (a saturation time of the trend basis).
    Length,
    /// A dimensionless number.
    Number,
    /// Parameter `i` of the family's value vector.
    Param(nat),
    /// A sum or a difference.
    Sum(Box<ModelTerm>, Box<ModelTerm>),
    Product(Box<ModelTerm>, Box<ModelTerm>),
    Quotient(Box<ModelTerm>, Box<ModelTerm>),
    Square(Box<ModelTerm>),
    Abs(Box<ModelTerm>),
    /// A transcendental function (`exp`, `ln`, `sin`, `tanh`, `arctan`, `erfc`, sigmoid…),
    /// whose argument must be dimensionless.
    Function(Box<ModelTerm>),
    /// `base^exponent` with a non-integer exponent: both must be dimensionless.
    Power(Box<ModelTerm>, Box<ModelTerm>),
}

pub open spec fn term_sum(a: ModelTerm, b: ModelTerm) -> ModelTerm {
    ModelTerm::Sum(Box::new(a), Box::new(b))
}

pub open spec fn term_product(a: ModelTerm, b: ModelTerm) -> ModelTerm {
    ModelTerm::Product(Box::new(a), Box::new(b))
}

pub open spec fn term_quotient(a: ModelTerm, b: ModelTerm) -> ModelTerm {
    ModelTerm::Quotient(Box::new(a), Box::new(b))
}

pub open spec fn term_square(a: ModelTerm) -> ModelTerm {
    ModelTerm::Square(Box::new(a))
}

pub open spec fn term_abs(a: ModelTerm) -> ModelTerm {
    ModelTerm::Abs(Box::new(a))
}

pub open spec fn term_function(a: ModelTerm) -> ModelTerm {
    ModelTerm::Function(Box::new(a))
}

pub open spec fn term_power(a: ModelTerm, b: ModelTerm) -> ModelTerm {
    ModelTerm::Power(Box::new(a), Box::new(b))
}

/// The physical dimension `(exponent of x, exponent of y)` of a term when parameter `i` has
/// dimension `dims[i]`; `None` when the term is inconsistent (a sum of unlike quantities,
/// or a function or power of a quantity with a dimension).
pub open spec fn term_dimension(t: ModelTerm, dims: Seq<(int, int)>) -> Option<(int, int)>
    decreases t,
{
    match t {
        ModelTerm::X => Some((1, 0)),
        ModelTerm::XPower(p) => Some((p as int, 0)),
        ModelTerm::Length => Some((1, 0)),
        ModelTerm::Number => Some((0, 0)),
        ModelTerm::Param(i) => if i < dims.len() {
            Some(dims[i as int])
        } else {
            None
        },
        ModelTerm::Sum(a, b) => match (term_dimension(*a, dims), term_dimension(*b, dims)) {
            (Some(u), Some(v)) => if u == v {
                Some(u)
            } else {
                None
            },
            _ => None,
        },
        ModelTerm::Product(a, b) => match (term_dimension(*a, dims), term_dimension(*b, dims)) {
            (Some(u), Some(v)) => Some((u.0 + v.0, u.1 + v.1)),
            _ => None,
        },
        ModelTerm::Quotient(a, b) => match (term_dimension(*a, dims), term_dimension(*b, dims)) {
            (Some(u), Some(v)) => Some((u.0 - v.0, u.1 - v.1)),
            _ => None,
        },
        ModelTerm::Square(a) => match term_dimension(*a, dims) {
            Some(u) => Some((2 * u.0, 2 * u.1)),
            None => None,
        },
        ModelTerm::Abs(a) => term_dimension(*a, dims),
        ModelTerm::Function(a) => if term_dimension(*a, dims) == Some((0int, 0int)) {
            Some((0, 0))
        } else {
            None
        },
        ModelTerm::Power(a, b) => if term_dimension(*a, dims) == Some((0int, 0int))
            && term_dimension(*b, dims) == Some((0int, 0int)) {
            Some((0, 0))
        } else {
            None
        },
    }
}

/// The sum of the first `k` terms `p_i · x^(count - 1 - i)` of a polynomial with `count`
/// coefficients, highest power first.
pub open spec fn polynomial_term(count: nat, k: nat) -> ModelTerm
    decreases k,
{
    if k <= 1 {
        term_product(ModelTerm::Param(0), ModelTerm::XPower((count - 1) as nat))
    } else {
        term_sum(
            polynomial_term(count, (k - 1) as nat),
            term_product(ModelTerm::Param((k - 1) as nat), ModelTerm::XPower((count - k) as nat)),
        )
    }
}

/// `1 + q_1·x + … + q_k·x^k`, the denominator coefficients following the `degree + 1`
/// numerator coefficients.
pub open spec fn denominator_term(degree: nat, k: nat) -> ModelTerm
    decreases k,
{
    if k == 0 {
        ModelTerm::Number
    } else {
        term_sum(
            denominator_term(degree, (k - 1) as nat),
            term_product(ModelTerm::Param(degree + k), ModelTerm::XPower(k)),
        )
    }
}

/// The model of each family, `None` for the power law `a·x^b`, whose exponent is fitted.
pub open spec fn model_term(family: CurveFamily) -> Option<ModelTerm> {
    if spec_polynomial_degree(family).is_some() {
        let count = spec_parameter_names(family).len();
        Some(polynomial_term(count, count))
    } else if let Some(degree) = spec_rational_degree(family) {
        if degree == 1 {
            Some(term_sum(
                ModelTerm::Param(3),
                term_quotient(
                    term_sum(term_product(ModelTerm::Param(0), ModelTerm::X), ModelTerm::Param(1)),
                    term_sum(ModelTerm::Number, term_product(ModelTerm::Param(2), ModelTerm::X)),
                ),
            ))
        } else {
            Some(term_quotient(polynomial_term(degree + 1, degree + 1), denominator_term(degree, degree)))
        }
    } else {
        match family {
        CurveFamily::Arrhenius => Some(term_product(ModelTerm::Param(0), term_function(term_quotient(ModelTerm::X, ModelTerm::Param(1))))),
        CurveFamily::Inverse => Some(term_sum(ModelTerm::Param(0), term_quotient(ModelTerm::Param(1), ModelTerm::X))),
        CurveFamily::Logistic => Some(term_quotient(ModelTerm::Param(0), term_sum(ModelTerm::Number, term_function(term_product(ModelTerm::Param(1), term_sum(ModelTerm::X, ModelTerm::Param(2))))))),
        CurveFamily::Gompertz => Some(term_product(ModelTerm::Param(0), term_function(term_function(term_product(ModelTerm::Param(1), term_sum(ModelTerm::X, ModelTerm::Param(2))))))),
        CurveFamily::BiExponential => Some(term_sum(term_sum(term_product(ModelTerm::Param(0), term_function(term_product(ModelTerm::Param(1), ModelTerm::X))), term_product(ModelTerm::Param(2), term_function(term_product(ModelTerm::Param(3), ModelTerm::X)))), ModelTerm::Param(4))),
        CurveFamily::DampedSinusoid => Some(term_sum(term_product(term_product(ModelTerm::Param(0), term_function(term_product(ModelTerm::Param(1), ModelTerm::X))), term_function(term_sum(term_product(ModelTerm::Param(2), ModelTerm::X), ModelTerm::Param(3)))), ModelTerm::Param(4))),
        CurveFamily::Lorentzian => Some(term_sum(ModelTerm::Param(3), term_quotient(ModelTerm::Param(0), term_sum(ModelTerm::Number, term_square(term_quotient(term_sum(ModelTerm::X, ModelTerm::Param(1)), ModelTerm::Param(2))))))),
        CurveFamily::NaturalLog => Some(term_product(ModelTerm::Param(0), term_function(term_quotient(ModelTerm::X, ModelTerm::Param(1))))),
        CurveFamily::MichaelisMenten => Some(term_quotient(term_product(ModelTerm::Param(0), ModelTerm::X), term_sum(ModelTerm::Param(1), ModelTerm::X))),
        CurveFamily::FourPl => Some(term_sum(ModelTerm::Param(3), term_quotient(term_sum(ModelTerm::Param(0), ModelTerm::Param(3)), term_sum(ModelTerm::Number, term_power(term_quotient(ModelTerm::X, ModelTerm::Param(2)), ModelTerm::Param(1)))))),
        CurveFamily::FivePl => Some(term_sum(ModelTerm::Param(3), term_quotient(term_sum(ModelTerm::Param(0), ModelTerm::Param(3)), term_power(term_sum(ModelTerm::Number, term_power(term_quotient(ModelTerm::X, ModelTerm::Param(2)), ModelTerm::Param(1))), ModelTerm::Param(4))))),
        CurveFamily::ExponentialBasic => Some(term_sum(ModelTerm::Param(0), term_product(ModelTerm::Param(1), term_function(term_product(ModelTerm::Param(2), ModelTerm::X))))),
        CurveFamily::ExponentialLinear => Some(term_sum(term_sum(term_product(ModelTerm::Param(0), term_function(term_product(ModelTerm::Param(1), ModelTerm::X))), term_product(ModelTerm::Param(2), ModelTerm::X)), ModelTerm::Param(3))),
        CurveFamily::ExponentialHalfLife => Some(term_sum(ModelTerm::Param(0), term_quotient(ModelTerm::Param(1), term_power(ModelTerm::Number, term_quotient(ModelTerm::X, ModelTerm::Param(2)))))),
        CurveFamily::FallingExponential => Some(term_sum(ModelTerm::Param(0), term_product(term_quotient(ModelTerm::Param(1), ModelTerm::Param(2)), term_sum(ModelTerm::Number, term_function(term_product(ModelTerm::Param(2), ModelTerm::X)))))),
        CurveFamily::HyperbolicTangent => Some(term_sum(term_product(ModelTerm::Param(0), term_function(term_product(ModelTerm::Param(1), term_sum(ModelTerm::X, ModelTerm::Param(2))))), ModelTerm::Param(3))),
        CurveFamily::ArctangentStep => Some(term_sum(term_product(ModelTerm::Param(0), term_function(term_product(ModelTerm::Param(1), term_sum(ModelTerm::X, ModelTerm::Param(2))))), ModelTerm::Param(3))),
        CurveFamily::Softplus => Some(term_sum(term_product(ModelTerm::Param(0), term_function(term_sum(ModelTerm::Number, term_function(term_product(ModelTerm::Param(1), term_sum(ModelTerm::X, ModelTerm::Param(2))))))), ModelTerm::Param(3))),
        CurveFamily::Gaussian => Some(term_product(ModelTerm::Param(0), term_function(term_quotient(term_square(term_sum(ModelTerm::X, ModelTerm::Param(1))), term_product(ModelTerm::Number, term_square(ModelTerm::Param(2))))))),
        CurveFamily::Emg => Some(term_sum(ModelTerm::Param(4), term_product(term_product(term_quotient(ModelTerm::Param(0), term_product(ModelTerm::Number, ModelTerm::Param(3))), term_function(term_sum(term_quotient(term_square(ModelTerm::Param(2)), term_product(ModelTerm::Number, term_square(ModelTerm::Param(3)))), term_quotient(term_sum(ModelTerm::X, ModelTerm::Param(1)), ModelTerm::Param(3))))), term_function(term_product(ModelTerm::Number, term_sum(term_quotient(ModelTerm::Param(2), term_abs(ModelTerm::Param(3))), term_quotient(term_sum(ModelTerm::X, ModelTerm::Param(1)), ModelTerm::Param(2)))))))),
        CurveFamily::PseudoVoigt => Some(term_sum(ModelTerm::Param(5), term_product(ModelTerm::Param(0), term_sum(term_product(term_function(ModelTerm::Param(4)), term_function(term_quotient(term_square(term_sum(ModelTerm::X, ModelTerm::Param(1))), term_product(ModelTerm::Number, term_square(ModelTerm::Param(2)))))), term_product(term_sum(ModelTerm::Number, term_function(ModelTerm::Param(4))), term_quotient(ModelTerm::Number, term_sum(ModelTerm::Number, term_square(term_quotient(term_sum(ModelTerm::X, ModelTerm::Param(1)), ModelTerm::Param(3)))))))))),
        CurveFamily::SaturatingTrendBasis1 => Some(term_sum(ModelTerm::Param(0), term_product(ModelTerm::Param(1), term_sum(ModelTerm::Number, term_function(term_quotient(ModelTerm::X, ModelTerm::Length)))))),
        CurveFamily::SaturatingTrendBasis2 => Some(term_sum(term_sum(ModelTerm::Param(0), term_product(ModelTerm::Param(1), term_sum(ModelTerm::Number, term_function(term_quotient(ModelTerm::X, ModelTerm::Length))))), term_product(ModelTerm::Param(2), term_sum(ModelTerm::Number, term_function(term_quotient(ModelTerm::X, ModelTerm::Length)))))),
        CurveFamily::SaturatingTrendBasis3 => Some(term_sum(term_sum(term_sum(ModelTerm::Param(0), term_product(ModelTerm::Param(1), term_sum(ModelTerm::Number, term_function(term_quotient(ModelTerm::X, ModelTerm::Length))))), term_product(ModelTerm::Param(2), term_sum(ModelTerm::Number, term_function(term_quotient(ModelTerm::X, ModelTerm::Length))))), term_product(ModelTerm::Param(3), term_sum(ModelTerm::Number, term_function(term_quotient(ModelTerm::X, ModelTerm::Length)))))),
        CurveFamily::SaturatingTrendBasis4 => Some(term_sum(term_sum(term_sum(term_sum(ModelTerm::Param(0), term_product(ModelTerm::Param(1), term_sum(ModelTerm::Number, term_function(term_quotient(ModelTerm::X, ModelTerm::Length))))), term_product(ModelTerm::Param(2), term_sum(ModelTerm::Number, term_function(term_quotient(ModelTerm::X, ModelTerm::Length))))), term_product(ModelTerm::Param(3), term_sum(ModelTerm::Number, term_function(term_quotient(ModelTerm::X, ModelTerm::Length))))), term_product(ModelTerm::Param(4), term_sum(ModelTerm::Number, term_function(term_quotient(ModelTerm::X, ModelTerm::Length)))))),
        CurveFamily::SaturatingTrendBasis5 => Some(term_sum(term_sum(term_sum(term_sum(term_sum(ModelTerm::Param(0), term_product(ModelTerm::Param(1), term_sum(ModelTerm::Number, term_function(term_quotient(ModelTerm::X, ModelTerm::Length))))), term_product(ModelTerm::Param(2), term_sum(ModelTerm::Number, term_function(term_quotient(ModelTerm::X, ModelTerm::Length))))), term_product(ModelTerm::Param(3), term_sum(ModelTerm::Number, term_function(term_quotient(ModelTerm::X, ModelTerm::Length))))), term_product(ModelTerm::Param(4), term_sum(ModelTerm::Number, term_function(term_quotient(ModelTerm::X, ModelTerm::Length))))), term_product(ModelTerm::Param(5), term_sum(ModelTerm::Number, term_function(term_quotient(ModelTerm::X, ModelTerm::Length)))))),
        CurveFamily::SaturatingTrendBasis6 => Some(term_sum(term_sum(term_sum(term_sum(term_sum(term_sum(ModelTerm::Param(0), term_product(ModelTerm::Param(1), term_sum(ModelTerm::Number, term_function(term_quotient(ModelTerm::X, ModelTerm::Length))))), term_product(ModelTerm::Param(2), term_sum(ModelTerm::Number, term_function(term_quotient(ModelTerm::X, ModelTerm::Length))))), term_product(ModelTerm::Param(3), term_sum(ModelTerm::Number, term_function(term_quotient(ModelTerm::X, ModelTerm::Length))))), term_product(ModelTerm::Param(4), term_sum(ModelTerm::Number, term_function(term_quotient(ModelTerm::X, ModelTerm::Length))))), term_product(ModelTerm::Param(5), term_sum(ModelTerm::Number, term_function(term_quotient(ModelTerm::X, ModelTerm::Length))))), term_product(ModelTerm::Param(6), term_sum(ModelTerm::Number, term_function(term_quotient(ModelTerm::X, ModelTerm::Length)))))),
            _ => None,
        }
    }
}

/// The dimensions a scaling plan gives the parameters: a parameter scaled by
/// `x_scale^x_exp · y_scale^y_exp` has dimension `x^-x_exp · y^-y_exp`.
pub open spec fn plan_dimensions(plan: Seq<(int, int)>) -> Seq<(int, int)> {
    plan.map_values(|s: (int, int)| (-s.0, -s.1))
}

proof fn lemma_polynomial_term_dimension(count: nat, k: nat, dims: Seq<(int, int)>)
    requires
        1 <= k <= count,
        count <= dims.len(),
        forall|i: int| 0 <= i < count ==> #[trigger] dims[i] == (-(count - 1 - i), 1int),
    ensures
        term_dimension(polynomial_term(count, k), dims) == Some((0int, 1int)),
    decreases k,
{
    reveal_with_fuel(term_dimension, 3);
    if k > 1 {
        lemma_polynomial_term_dimension(count, (k - 1) as nat, dims);
        assert(dims[k - 1] == (-(count - 1 - (k - 1)), 1int));
    } else {
        assert(dims[0] == (-(count - 1 - 0), 1int));
    }
}

proof fn lemma_denominator_term_dimension(degree: nat, k: nat, dims: Seq<(int, int)>)
    requires
        k <= degree,
        2 * degree + 1 <= dims.len(),
        forall|j: int| 1 <= j <= degree ==> #[trigger] dims[degree + j] == (-j, 0int),
    ensures
        term_dimension(denominator_term(degree, k), dims) == Some((0int, 0int)),
    decreases k,
{
    reveal_with_fuel(term_dimension, 3);
    if k > 0 {
        lemma_denominator_term_dimension(degree, (k - 1) as nat, dims);
        assert(dims[(degree + k) as int] == (-(k as int), 0int));
    }
}

/// Normalization keeps every model the same curve: under the dimensions that a family's
/// scaling plan gives its parameters, the family's model is dimensionally consistent and
/// has the dimension of `y` (every sum adds like quantities, every function and fitted
/// power gets a dimensionless argument). The power law, whose exponent is fitted, is the
/// only family without a plan.
pub proof fn lemma_scale_plan_keeps_models_consistent(family: CurveFamily)
    ensures
        family != CurveFamily::Power ==> (spec_scale_plan(family) matches Some(plan) && model_term(
            family,
        ) matches Some(t) && term_dimension(t, plan_dimensions(plan)) == Some((0int, 1int))),
{
    if let Some(d) = spec_polynomial_degree(family) {
        let count = spec_parameter_names(family).len();
        assert(count == d + 1);
        let dims = plan_dimensions(spec_polynomial_scales(count));
        assert forall|i: int| 0 <= i < count implies #[trigger] dims[i] == (-(count - 1 - i), 1int) by {}
        lemma_polynomial_term_dimension(count, count, dims);
    } else if let Some(degree) = spec_rational_degree(family) {
        if degree >= 2 {
            let dims = plan_dimensions(spec_rational_scales(degree));
            assert forall|i: int| 0 <= i < degree + 1 implies #[trigger] dims[i] == (-(degree + 1 - 1 - i), 1int) by {}
            assert forall|j: int| 1 <= j <= degree implies #[trigger] dims[degree + j] == (-j, 0int) by {}
            lemma_polynomial_term_dimension(degree + 1, degree + 1, dims);
            lemma_denominator_term_dimension(degree, degree, dims);
            assert(term_dimension(model_term(family).unwrap(), dims) == Some((0int, 1int))) by {
                reveal_with_fuel(term_dimension, 2);
            }
        } else {
            lemma_rational_one_model_is_consistent();
        }
    } else {
        match family {
            CurveFamily::Arrhenius => lemma_arrhenius_model_is_consistent(),
            CurveFamily::Inverse => lemma_inverse_model_is_consistent(),
            CurveFamily::Logistic => lemma_logistic_model_is_consistent(),
            CurveFamily::Gompertz => lemma_gompertz_model_is_consistent(),
            CurveFamily::BiExponential => lemma_bi_exponential_model_is_consistent(),
            CurveFamily::DampedSinusoid => lemma_damped_sinusoid_model_is_consistent(),
            CurveFamily::Lorentzian => lemma_lorentzian_model_is_consistent(),
            CurveFamily::NaturalLog => lemma_natural_log_model_is_consistent(),
            CurveFamily::MichaelisMenten => lemma_michaelis_menten_model_is_consistent(),
            CurveFamily::FourPl => lemma_four_pl_model_is_consistent(),
            CurveFamily::FivePl => lemma_five_pl_model_is_consistent(),
            CurveFamily::ExponentialBasic => lemma_exponential_basic_model_is_consistent(),
            CurveFamily::ExponentialLinear => lemma_exponential_linear_model_is_consistent(),
            CurveFamily::ExponentialHalfLife => lemma_exponential_half_life_model_is_consistent(),
            CurveFamily::FallingExponential => lemma_falling_exponential_model_is_consistent(),
            CurveFamily::HyperbolicTangent => lemma_hyperbolic_tangent_model_is_consistent(),
            CurveFamily::ArctangentStep => lemma_arctangent_step_model_is_consistent(),
            CurveFamily::Softplus => lemma_softplus_model_is_consistent(),
            CurveFamily::Gaussian => lemma_gaussian_model_is_consistent(),
            CurveFamily::Emg => lemma_emg_model_is_consistent(),
            CurveFamily::PseudoVoigt => lemma_pseudo_voigt_model_is_consistent(),
            CurveFamily::SaturatingTrendBasis1 => lemma_saturating_trend_basis1_model_is_consistent(),
            CurveFamily::SaturatingTrendBasis2 => lemma_saturating_trend_basis2_model_is_consistent(),
            CurveFamily::SaturatingTrendBasis3 => lemma_saturating_trend_basis3_model_is_consistent(),
            CurveFamily::SaturatingTrendBasis4 => lemma_saturating_trend_basis4_model_is_consistent(),
            CurveFamily::SaturatingTrendBasis5 => lemma_saturating_trend_basis5_model_is_consistent(),
            CurveFamily::SaturatingTrendBasis6 => lemma_saturating_trend_basis6_model_is_consistent(),
            _ => {},
        }
    }
}

proof fn lemma_arrhenius_model_is_consistent()
    ensures
        spec_scale_plan(CurveFamily::Arrhenius) matches Some(plan) && model_term(CurveFamily::Arrhenius) matches Some(t)
            && term_dimension(t, plan_dimensions(plan)) == Some((0int, 1int)),
{
    reveal_with_fuel(term_dimension, 5);
    let plan = spec_scale_plan(CurveFamily::Arrhenius).unwrap();
    let dims = plan_dimensions(plan);
    assert(dims =~= plan.map_values(|s: (int, int)| (-s.0, -s.1)));
}

proof fn lemma_inverse_model_is_consistent()
    ensures
        spec_scale_plan(CurveFamily::Inverse) matches Some(plan) && model_term(CurveFamily::Inverse) matches Some(t)
            && term_dimension(t, plan_dimensions(plan)) == Some((0int, 1int)),
{
    reveal_with_fuel(term_dimension, 4);
    let plan = spec_scale_plan(CurveFamily::Inverse).unwrap();
    let dims = plan_dimensions(plan);
    assert(dims =~= plan.map_values(|s: (int, int)| (-s.0, -s.1)));
}

proof fn lemma_logistic_model_is_consistent()
    ensures
        spec_scale_plan(CurveFamily::Logistic) matches Some(plan) && model_term(CurveFamily::Logistic) matches Some(t)
            && term_dimension(t, plan_dimensions(plan)) == Some((0int, 1int)),
{
    reveal_with_fuel(term_dimension, 7);
    let plan = spec_scale_plan(CurveFamily::Logistic).unwrap();
    let dims = plan_dimensions(plan);
    assert(dims =~= plan.map_values(|s: (int, int)| (-s.0, -s.1)));
}

proof fn lemma_gompertz_model_is_consistent()
    ensures
        spec_scale_plan(CurveFamily::Gompertz) matches Some(plan) && model_term(CurveFamily::Gompertz) matches Some(t)
            && term_dimension(t, plan_dimensions(plan)) == Some((0int, 1int)),
{
    reveal_with_fuel(term_dimension, 7);
    let plan = spec_scale_plan(CurveFamily::Gompertz).unwrap();
    let dims = plan_dimensions(plan);
    assert(dims =~= plan.map_values(|s: (int, int)| (-s.0, -s.1)));
}

proof fn lemma_bi_exponential_model_is_consistent()
    ensures
        spec_scale_plan(CurveFamily::BiExponential) matches Some(plan) && model_term(CurveFamily::BiExponential) matches Some(t)
            && term_dimension(t, plan_dimensions(plan)) == Some((0int, 1int)),
{
    reveal_with_fuel(term_dimension, 7);
    let plan = spec_scale_plan(CurveFamily::BiExponential).unwrap();
    let dims = plan_dimensions(plan);
    assert(dims =~= plan.map_values(|s: (int, int)| (-s.0, -s.1)));
}

proof fn lemma_damped_sinusoid_model_is_consistent()
    ensures
        spec_scale_plan(CurveFamily::DampedSinusoid) matches Some(plan) && model_term(CurveFamily::DampedSinusoid) matches Some(t)
            && term_dimension(t, plan_dimensions(plan)) == Some((0int, 1int)),
{
    reveal_with_fuel(term_dimension, 7);
    let plan = spec_scale_plan(CurveFamily::DampedSinusoid).unwrap();
    let dims = plan_dimensions(plan);
    assert(dims =~= plan.map_values(|s: (int, int)| (-s.0, -s.1)));
}

proof fn lemma_lorentzian_model_is_consistent()
    ensures
        spec_scale_plan(CurveFamily::Lorentzian) matches Some(plan) && model_term(CurveFamily::Lorentzian) matches Some(t)
            && term_dimension(t, plan_dimensions(plan)) == Some((0int, 1int)),
{
    reveal_with_fuel(term_dimension, 8);
    let plan = spec_scale_plan(CurveFamily::Lorentzian).unwrap();
    let dims = plan_dimensions(plan);
    assert(dims =~= plan.map_values(|s: (int, int)| (-s.0, -s.1)));
}

proof fn lemma_natural_log_model_is_consistent()
    ensures
        spec_scale_plan(CurveFamily::NaturalLog) matches Some(plan) && model_term(CurveFamily::NaturalLog) matches Some(t)
            && term_dimension(t, plan_dimensions(plan)) == Some((0int, 1int)),
{
    reveal_with_fuel(term_dimension, 5);
    let plan = spec_scale_plan(CurveFamily::NaturalLog).unwrap();
    let dims = plan_dimensions(plan);
    assert(dims =~= plan.map_values(|s: (int, int)| (-s.0, -s.1)));
}

proof fn lemma_michaelis_menten_model_is_consistent()
    ensures
        spec_scale_plan(CurveFamily::MichaelisMenten) matches Some(plan) && model_term(CurveFamily::MichaelisMenten) matches Some(t)
            && term_dimension(t, plan_dimensions(plan)) == Some((0int, 1int)),
{
    reveal_with_fuel(term_dimension, 4);
    let plan = spec_scale_plan(CurveFamily::MichaelisMenten).unwrap();
    let dims = plan_dimensions(plan);
    assert(dims =~= plan.map_values(|s: (int, int)| (-s.0, -s.1)));
}

proof fn lemma_four_pl_model_is_consistent()
    ensures
        spec_scale_plan(CurveFamily::FourPl) matches Some(plan) && model_term(CurveFamily::FourPl) matches Some(t)
            && term_dimension(t, plan_dimensions(plan)) == Some((0int, 1int)),
{
    reveal_with_fuel(term_dimension, 7);
    let plan = spec_scale_plan(CurveFamily::FourPl).unwrap();
    let dims = plan_dimensions(plan);
    assert(dims =~= plan.map_values(|s: (int, int)| (-s.0, -s.1)));
}

proof fn lemma_five_pl_model_is_consistent()
    ensures
        spec_scale_plan(CurveFamily::FivePl) matches Some(plan) && model_term(CurveFamily::FivePl) matches Some(t)
            && term_dimension(t, plan_dimensions(plan)) == Some((0int, 1int)),
{
    reveal_with_fuel(term_dimension, 8);
    let plan = spec_scale_plan(CurveFamily::FivePl).unwrap();
    let dims = plan_dimensions(plan);
    assert(dims =~= plan.map_values(|s: (int, int)| (-s.0, -s.1)));
}

proof fn lemma_exponential_basic_model_is_consistent()
    ensures
        spec_scale_plan(CurveFamily::ExponentialBasic) matches Some(plan) && model_term(CurveFamily::ExponentialBasic) matches Some(t)
            && term_dimension(t, plan_dimensions(plan)) == Some((0int, 1int)),
{
    reveal_with_fuel(term_dimension, 6);
    let plan = spec_scale_plan(CurveFamily::ExponentialBasic).unwrap();
    let dims = plan_dimensions(plan);
    assert(dims =~= plan.map_values(|s: (int, int)| (-s.0, -s.1)));
}

proof fn lemma_exponential_linear_model_is_consistent()
    ensures
        spec_scale_plan(CurveFamily::ExponentialLinear) matches Some(plan) && model_term(CurveFamily::ExponentialLinear) matches Some(t)
            && term_dimension(t, plan_dimensions(plan)) == Some((0int, 1int)),
{
    reveal_with_fuel(term_dimension, 7);
    let plan = spec_scale_plan(CurveFamily::ExponentialLinear).unwrap();
    let dims = plan_dimensions(plan);
    assert(dims =~= plan.map_values(|s: (int, int)| (-s.0, -s.1)));
}

proof fn lemma_exponential_half_life_model_is_consistent()
    ensures
        spec_scale_plan(CurveFamily::ExponentialHalfLife) matches Some(plan) && model_term(CurveFamily::ExponentialHalfLife) matches Some(t)
            && term_dimension(t, plan_dimensions(plan)) == Some((0int, 1int)),
{
    reveal_with_fuel(term_dimension, 6);
    let plan = spec_scale_plan(CurveFamily::ExponentialHalfLife).unwrap();
    let dims = plan_dimensions(plan);
    assert(dims =~= plan.map_values(|s: (int, int)| (-s.0, -s.1)));
}

proof fn lemma_falling_exponential_model_is_consistent()
    ensures
        spec_scale_plan(CurveFamily::FallingExponential) matches Some(plan) && model_term(CurveFamily::FallingExponential) matches Some(t)
            && term_dimension(t, plan_dimensions(plan)) == Some((0int, 1int)),
{
    reveal_with_fuel(term_dimension, 7);
    let plan = spec_scale_plan(CurveFamily::FallingExponential).unwrap();
    let dims = plan_dimensions(plan);
    assert(dims =~= plan.map_values(|s: (int, int)| (-s.0, -s.1)));
}

proof fn lemma_hyperbolic_tangent_model_is_consistent()
    ensures
        spec_scale_plan(CurveFamily::HyperbolicTangent) matches Some(plan) && model_term(CurveFamily::HyperbolicTangent) matches Some(t)
            && term_dimension(t, plan_dimensions(plan)) == Some((0int, 1int)),
{
    reveal_with_fuel(term_dimension, 7);
    let plan = spec_scale_plan(CurveFamily::HyperbolicTangent).unwrap();
    let dims = plan_dimensions(plan);
    assert(dims =~= plan.map_values(|s: (int, int)| (-s.0, -s.1)));
}

proof fn lemma_arctangent_step_model_is_consistent()
    ensures
        spec_scale_plan(CurveFamily::ArctangentStep) matches Some(plan) && model_term(CurveFamily::ArctangentStep) matches Some(t)
            && term_dimension(t, plan_dimensions(plan)) == Some((0int, 1int)),
{
    reveal_with_fuel(term_dimension, 7);
    let plan = spec_scale_plan(CurveFamily::ArctangentStep).unwrap();
    let dims = plan_dimensions(plan);
    assert(dims =~= plan.map_values(|s: (int, int)| (-s.0, -s.1)));
}

proof fn lemma_softplus_model_is_consistent()
    ensures
        spec_scale_plan(CurveFamily::Softplus) matches Some(plan) && model_term(CurveFamily::Softplus) matches Some(t)
            && term_dimension(t, plan_dimensions(plan)) == Some((0int, 1int)),
{
    reveal_with_fuel(term_dimension, 9);
    let plan = spec_scale_plan(CurveFamily::Softplus).unwrap();
    let dims = plan_dimensions(plan);
    assert(dims =~= plan.map_values(|s: (int, int)| (-s.0, -s.1)));
}

proof fn lemma_gaussian_model_is_consistent()
    ensures
        spec_scale_plan(CurveFamily::Gaussian) matches Some(plan) && model_term(CurveFamily::Gaussian) matches Some(t)
            && term_dimension(t, plan_dimensions(plan)) == Some((0int, 1int)),
{
    reveal_with_fuel(term_dimension, 7);
    let plan = spec_scale_plan(CurveFamily::Gaussian).unwrap();
    let dims = plan_dimensions(plan);
    assert(dims =~= plan.map_values(|s: (int, int)| (-s.0, -s.1)));
}

proof fn lemma_emg_model_is_consistent()
    ensures
        spec_scale_plan(CurveFamily::Emg) matches Some(plan) && model_term(CurveFamily::Emg) matches Some(t)
            && term_dimension(t, plan_dimensions(plan)) == Some((0int, 1int)),
{
    reveal_with_fuel(term_dimension, 10);
    let plan = spec_scale_plan(CurveFamily::Emg).unwrap();
    let dims = plan_dimensions(plan);
    assert(dims =~= plan.map_values(|s: (int, int)| (-s.0, -s.1)));
}

proof fn lemma_pseudo_voigt_model_is_consistent()
    ensures
        spec_scale_plan(CurveFamily::PseudoVoigt) matches Some(plan) && model_term(CurveFamily::PseudoVoigt) matches Some(t)
            && term_dimension(t, plan_dimensions(plan)) == Some((0int, 1int)),
{
    reveal_with_fuel(term_dimension, 11);
    let plan = spec_scale_plan(CurveFamily::PseudoVoigt).unwrap();
    let dims = plan_dimensions(plan);
    assert(dims =~= plan.map_values(|s: (int, int)| (-s.0, -s.1)));
}

proof fn lemma_saturating_trend_basis1_model_is_consistent()
    ensures
        spec_scale_plan(CurveFamily::SaturatingTrendBasis1) matches Some(plan) && model_term(CurveFamily::SaturatingTrendBasis1) matches Some(t)
            && term_dimension(t, plan_dimensions(plan)) == Some((0int, 1int)),
{
    reveal_with_fuel(term_dimension, 7);
    let plan = spec_scale_plan(CurveFamily::SaturatingTrendBasis1).unwrap();
    let dims = plan_dimensions(plan);
    assert(dims =~= plan.map_values(|s: (int, int)| (-s.0, -s.1)));
}

proof fn lemma_saturating_trend_basis2_model_is_consistent()
    ensures
        spec_scale_plan(CurveFamily::SaturatingTrendBasis2) matches Some(plan) && model_term(CurveFamily::SaturatingTrendBasis2) matches Some(t)
            && term_dimension(t, plan_dimensions(plan)) == Some((0int, 1int)),
{
    reveal_with_fuel(term_dimension, 8);
    let plan = spec_scale_plan(CurveFamily::SaturatingTrendBasis2).unwrap();
    let dims = plan_dimensions(plan);
    assert(dims =~= plan.map_values(|s: (int, int)| (-s.0, -s.1)));
}

proof fn lemma_saturating_trend_basis3_model_is_consistent()
    ensures
        spec_scale_plan(CurveFamily::SaturatingTrendBasis3) matches Some(plan) && model_term(CurveFamily::SaturatingTrendBasis3) matches Some(t)
            && term_dimension(t, plan_dimensions(plan)) == Some((0int, 1int)),
{
    reveal_with_fuel(term_dimension, 9);
    let plan = spec_scale_plan(CurveFamily::SaturatingTrendBasis3).unwrap();
    let dims = plan_dimensions(plan);
    assert(dims =~= plan.map_values(|s: (int, int)| (-s.0, -s.1)));
}

proof fn lemma_saturating_trend_basis4_model_is_consistent()
    ensures
        spec_scale_plan(CurveFamily::SaturatingTrendBasis4) matches Some(plan) && model_term(CurveFamily::SaturatingTrendBasis4) matches Some(t)
            && term_dimension(t, plan_dimensions(plan)) == Some((0int, 1int)),
{
    reveal_with_fuel(term_dimension, 10);
    let plan = spec_scale_plan(CurveFamily::SaturatingTrendBasis4).unwrap();
    let dims = plan_dimensions(plan);
    assert(dims =~= plan.map_values(|s: (int, int)| (-s.0, -s.1)));
}

proof fn lemma_saturating_trend_basis5_model_is_consistent()
    ensures
        spec_scale_plan(CurveFamily::SaturatingTrendBasis5) matches Some(plan) && model_term(CurveFamily::SaturatingTrendBasis5) matches Some(t)
            && term_dimension(t, plan_dimensions(plan)) == Some((0int, 1int)),
{
    reveal_with_fuel(term_dimension, 11);
    let plan = spec_scale_plan(CurveFamily::SaturatingTrendBasis5).unwrap();
    let dims = plan_dimensions(plan);
    assert(dims =~= plan.map_values(|s: (int, int)| (-s.0, -s.1)));
}

proof fn lemma_saturating_trend_basis6_model_is_consistent()
    ensures
        spec_scale_plan(CurveFamily::SaturatingTrendBasis6) matches Some(plan) && model_term(CurveFamily::SaturatingTrendBasis6) matches Some(t)
            && term_dimension(t, plan_dimensions(plan)) == Some((0int, 1int)),
{
    reveal_with_fuel(term_dimension, 12);
    let plan = spec_scale_plan(CurveFamily::SaturatingTrendBasis6).unwrap();
    let dims = plan_dimensions(plan);
    assert(dims =~= plan.map_values(|s: (int, int)| (-s.0, -s.1)));
}

proof fn lemma_rational_one_model_is_consistent()
    ensures
        spec_scale_plan(CurveFamily::Rational11) matches Some(plan) && model_term(CurveFamily::Rational11) matches Some(t)
            && term_dimension(t, plan_dimensions(plan)) == Some((0int, 1int)),
{
    reveal_with_fuel(term_dimension, 12);
    let plan = spec_scale_plan(CurveFamily::Rational11).unwrap();
    let dims = plan_dimensions(plan);
    assert(dims =~= plan.map_values(|s: (int, int)| (-s.0, -s.1)));
}

} // verus!
