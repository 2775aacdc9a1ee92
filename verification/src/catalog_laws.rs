//! Laws that tie the model catalog together: each fixed model resolves to the family of
//! the same model, exported identifiers name the family that was fitted, the `x > 0`
//! domain check matches each model's stated domain, and what a point check answers.

use vstd::prelude::*;
use crate::export::{spec_curve_family_id, spec_model_choice_id, spec_spline_family_id, spline_kind_of};
use crate::family::{
    first_non_positive_from, spec_check_points, spec_label, spec_min_points, spec_requires_positive_x,
    CurveFamily, FamilyPointsError,
};
use crate::formula::spec_model_constraint_note;
use crate::i18n::{spec_family_label, spec_model_choice_label, UiLanguage};
use crate::model_catalog::{spec_resolve, ModelChoice, ResolvedModel};

verus! {

/// Different families are exported under different identifiers.
pub proof fn lemma_family_ids_are_distinct(family: CurveFamily, other: CurveFamily)
    requires
        family != other,
    ensures
        spec_curve_family_id(family) != spec_curve_family_id(other),
{
    reveal_strlit("linear");
    reveal_strlit("quadratic");
    reveal_strlit("cubic");
    reveal_strlit("quartic");
    reveal_strlit("quintic");
    reveal_strlit("sextic");
    reveal_strlit("septic");
    reveal_strlit("octic");
    reveal_strlit("nonic");
    reveal_strlit("arrhenius");
    reveal_strlit("inverse");
    reveal_strlit("logistic");
    reveal_strlit("gompertz");
    reveal_strlit("bi_exponential");
    reveal_strlit("damped_sinusoid");
    reveal_strlit("lorentzian");
    reveal_strlit("natural_log");
    reveal_strlit("four_pl");
    reveal_strlit("five_pl");
    reveal_strlit("michaelis_menten");
    reveal_strlit("exponential_basic");
    reveal_strlit("exponential_linear");
    reveal_strlit("exponential_half_life");
    reveal_strlit("falling_exponential");
    reveal_strlit("hyperbolic_tangent");
    reveal_strlit("arctangent_step");
    reveal_strlit("softplus");
    reveal_strlit("power");
    reveal_strlit("gaussian");
    reveal_strlit("rational_11");
    reveal_strlit("rational_22");
    reveal_strlit("rational_33");
    reveal_strlit("rational_44");
    reveal_strlit("rational_55");
    reveal_strlit("emg");
    reveal_strlit("pseudo_voigt");
    reveal_strlit("saturating_trend_basis_1");
    reveal_strlit("saturating_trend_basis_2");
    reveal_strlit("saturating_trend_basis_3");
    reveal_strlit("saturating_trend_basis_4");
    reveal_strlit("saturating_trend_basis_5");
    reveal_strlit("saturating_trend_basis_6");
    let a = spec_curve_family_id(family);
    let b = spec_curve_family_id(other);
    if a == b {
        assert(a.len() == b.len());
        assert(a[0] == b[0]);
        assert(a[1] == b[1]);
        assert(a[2] == b[2]);
        assert(a[3] == b[3]);
        assert(a[4] == b[4]);
        assert(a[5] == b[5]);
        assert(a[6] == b[6]);
        assert(a[7] == b[7]);
        assert(a[8] == b[8]);
        assert(a[9] == b[9]);
        assert(a[10] == b[10]);
        assert(a[11] == b[11]);
        assert(a[12] == b[12]);
        assert(a[13] == b[13]);
        assert(a[14] == b[14]);
        assert(a[15] == b[15]);
        assert(a[16] == b[16]);
        assert(a[17] == b[17]);
        assert(a[18] == b[18]);
        assert(a[19] == b[19]);
        assert(a[20] == b[20]);
        assert(a[21] == b[21]);
        assert(a[22] == b[22]);
        assert(a[23] == b[23]);
        assert(a[24] == b[24]);
    }
}

/// Every model choice with a formula of its own (all but the polynomial, the rational and
/// the splines) resolves, whatever the degree settings, to the curve family of the same
/// model: the family is exported under the choice's own identifier and shown under the
/// choice's own name, in both languages.
pub proof fn lemma_fixed_choices_resolve_to_their_family(
    choice: ModelChoice,
    polynomial_degree: nat,
    rational_degree: nat,
)
    requires
        choice != ModelChoice::Polynomial,
        choice != ModelChoice::Rational,
        choice != ModelChoice::LinearSpline,
        choice != ModelChoice::MonotoneCubicSpline,
        choice != ModelChoice::NaturalCubicSpline,
        choice != ModelChoice::AkimaSpline,
    ensures
        spec_resolve(choice, polynomial_degree, rational_degree) matches ResolvedModel::Parametric(family)
            && spec_curve_family_id(family) == spec_model_choice_id(choice)
            && spec_family_label(UiLanguage::English, family) == spec_model_choice_label(UiLanguage::English, choice)
            && spec_family_label(UiLanguage::Russian, family) == spec_model_choice_label(UiLanguage::Russian, choice)
            && spec_label(family) == spec_model_choice_label(UiLanguage::English, choice),
{
}

/// Every spline choice resolves, whatever the degree settings, to a spline of the same
/// kind: the spline is exported under the choice's own identifier.
pub proof fn lemma_spline_choices_resolve_to_their_kind(
    choice: ModelChoice,
    polynomial_degree: nat,
    rational_degree: nat,
)
    requires
        choice == ModelChoice::LinearSpline || choice == ModelChoice::MonotoneCubicSpline
            || choice == ModelChoice::NaturalCubicSpline || choice == ModelChoice::AkimaSpline,
    ensures
        !(spec_resolve(choice, polynomial_degree, rational_degree) is Parametric),
        spec_spline_family_id(spline_kind_of(spec_resolve(choice, polynomial_degree, rational_degree)))
            == spec_model_choice_id(choice),
{
}

/// A fitted family requires `x > 0` exactly when the chosen model states the domain
/// constraint `x > 0` on its formula card, in either language.
pub proof fn lemma_positive_x_matches_stated_domain(
    choice: ModelChoice,
    polynomial_degree: nat,
    rational_degree: nat,
    language: UiLanguage,
)
    ensures
        spec_resolve(choice, polynomial_degree, rational_degree) matches ResolvedModel::Parametric(family)
            ==> (spec_requires_positive_x(family) <==> spec_model_constraint_note(language, choice) is Some),
{
    if let ResolvedModel::Parametric(family) = spec_resolve(choice, polynomial_degree, rational_degree) {
        if choice == ModelChoice::Polynomial {
            assert(!spec_requires_positive_x(family));
        } else if choice == ModelChoice::Rational {
            assert(!spec_requires_positive_x(family));
        }
    }
}

/// From position `i` on, the first `false` is the first position where it occurs.
proof fn lemma_first_false_from(x_positive: Seq<bool>, i: int)
    requires
        0 <= i <= x_positive.len(),
    ensures
        first_non_positive_from(x_positive, i) matches Some(k) ==> i <= k < x_positive.len()
            && !x_positive[k] && forall|j: int| i <= j < k ==> #[trigger] x_positive[j],
        first_non_positive_from(x_positive, i) is None ==> forall|j: int|
            i <= j < x_positive.len() ==> #[trigger] x_positive[j],
    decreases x_positive.len() - i,
{
    if i < x_positive.len() && x_positive[i] {
        lemma_first_false_from(x_positive, i + 1);
    }
}

/// What a point check answers, in terms of the point count and which points have `x > 0`:
/// it passes exactly when there are at least `min_points` points and, for a family that
/// needs `x > 0`, every point has it; too few points are reported with the count and the
/// minimum; otherwise the first point without `x > 0` is reported.
pub proof fn lemma_check_points_answers(family: CurveFamily, x_positive: Seq<bool>)
    requires
        x_positive.len() <= usize::MAX,
    ensures
        spec_check_points(family, x_positive) is Ok <==> (x_positive.len() >= spec_min_points(family)
            && (spec_requires_positive_x(family) ==> forall|i: int|
            0 <= i < x_positive.len() ==> #[trigger] x_positive[i])),
        spec_check_points(family, x_positive) matches Err(FamilyPointsError::TooFewPoints { len, min_required })
            ==> len == x_positive.len() && min_required == spec_min_points(family) && len < min_required,
        spec_check_points(family, x_positive) matches Err(FamilyPointsError::NonPositiveX { index })
            ==> spec_requires_positive_x(family) && x_positive.len() >= spec_min_points(family)
            && index < x_positive.len() && !x_positive[index as int] && forall|j: int|
            0 <= j < index ==> #[trigger] x_positive[j],
{
    lemma_first_false_from(x_positive, 0);
    assert(spec_min_points(family) <= 11);
}

} // verus!
