use curve_fit::family::{
    CurveFamily, FamilyPointsError, CURVE_FAMILY_COUNT, MAX_RATIONAL_DEGREE, MAX_SATURATING_TREND_TAU_COUNT,
    MIN_RATIONAL_DEGREE,
};
use curve_fit::model_catalog::{
    is_advanced_param_init_supported, model_group, model_min_points, polynomial_family,
    rational_family, ModelChoice, ModelGroup, ParamInitMethod, ResolvedModel, SplineFamilyKind,
};
use curve_fit::normalization::{param_scale_plan, ParamScale, ScaleDirection};

#[test]
fn curve_family_all_matches_discriminant_order() {
    let all = CurveFamily::all();
    assert_eq!(all.len(), CURVE_FAMILY_COUNT);
    for (index, family) in all.iter().copied().enumerate() {
        assert_eq!(family as usize, index);
    }
}

#[test]
fn rational_family_metadata_matches_expected_degree() {
    let scenarios = [
        (CurveFamily::Rational11, 1_usize, 4_usize, 4_usize),
        (CurveFamily::Rational22, 2, 5, 5),
        (CurveFamily::Rational33, 3, 7, 7),
        (CurveFamily::Rational44, 4, 9, 9),
        (CurveFamily::Rational55, 5, 11, 11),
        (CurveFamily::SaturatingTrendBasis1, 0, 2, 2),
        (CurveFamily::SaturatingTrendBasis6, 0, 7, 7),
    ];

    for (family, degree, parameter_count, min_points) in scenarios {
        if degree == 0 {
            assert!(!family.is_rational());
            assert_eq!(family.rational_degree(), None);
        } else {
            assert!(family.is_rational());
            assert_eq!(family.rational_degree(), Some(degree));
            assert_eq!(CurveFamily::from_rational_degree(degree), family);
        }
        assert_eq!(family.parameter_count(), parameter_count);
        assert_eq!(family.min_points(), min_points);
        assert_eq!(family.parameter_names().len(), parameter_count);
    }

    assert_eq!(
        CurveFamily::from_rational_degree(MIN_RATIONAL_DEGREE.saturating_sub(1)),
        CurveFamily::Rational11
    );
    assert_eq!(
        CurveFamily::from_rational_degree(MAX_RATIONAL_DEGREE + 10),
        CurveFamily::Rational55
    );
}

#[test]
fn family_labels_and_parameter_names_follow_the_metadata() {
    assert_eq!(CurveFamily::Linear.label(), "Linear");
    assert_eq!(CurveFamily::BiExponential.label(), "Bi-Exponential");
    assert_eq!(CurveFamily::SaturatingTrendBasis3.label(), "Saturating Trend Basis (3 tau)");
    assert_eq!(CurveFamily::PseudoVoigt.parameter_names(), &["a", "x0", "sigma", "gamma", "eta", "c"]);
    assert_eq!(CurveFamily::MichaelisMenten.parameter_names(), &["Vmax", "Km"]);
    assert!(CurveFamily::Power.requires_positive_x());
    assert!(CurveFamily::FourPl.requires_positive_x());
    assert!(!CurveFamily::Gaussian.requires_positive_x());
}

#[test]
fn every_family_needs_as_many_points_as_parameters() {
    for family in CurveFamily::all() {
        assert_eq!(family.min_points(), family.parameter_count());
        assert_eq!(family.parameter_names().len(), family.parameter_count());
    }
}

#[test]
fn tau_count_round_trips_and_clamps() {
    for count in 1..=MAX_SATURATING_TREND_TAU_COUNT {
        let family = CurveFamily::from_saturating_trend_tau_count(count);
        assert!(family.is_saturating_trend_basis());
        assert_eq!(family.saturating_trend_tau_count(), Some(count));
        assert!(!family.supports_parametric_normalization());
        assert_eq!(family.parameter_count(), count + 1);
    }
    assert_eq!(CurveFamily::from_saturating_trend_tau_count(0), CurveFamily::SaturatingTrendBasis1);
    assert_eq!(CurveFamily::from_saturating_trend_tau_count(99), CurveFamily::SaturatingTrendBasis6);
    assert_eq!(CurveFamily::Linear.saturating_trend_tau_count(), None);
    assert!(CurveFamily::Linear.supports_parametric_normalization());
}

#[test]
fn family_kinds_are_disjoint() {
    for family in CurveFamily::all() {
        let kinds = [family.is_polynomial(), family.is_rational(), family.is_saturating_trend_basis()];
        assert!(kinds.iter().filter(|kind| **kind).count() <= 1, "{family:?}");
    }
    assert!(CurveFamily::Nonic.is_polynomial());
    assert!(!CurveFamily::Gaussian.is_polynomial());
}

#[test]
fn polynomial_and_rational_families_clamp_their_degree() {
    assert_eq!(polynomial_family(0), CurveFamily::Linear);
    assert_eq!(polynomial_family(3), CurveFamily::Cubic);
    assert_eq!(polynomial_family(42), CurveFamily::Nonic);
    assert_eq!(rational_family(0), CurveFamily::Rational11);
    assert_eq!(rational_family(4), CurveFamily::Rational44);
}

#[test]
fn model_choices_resolve_with_degree_settings() {
    assert_eq!(
        ResolvedModel::from_choice(ModelChoice::Polynomial, 2, 5),
        ResolvedModel::Parametric(CurveFamily::Quadratic)
    );
    assert_eq!(
        ResolvedModel::from_choice(ModelChoice::Rational, 2, 3),
        ResolvedModel::Parametric(CurveFamily::Rational33)
    );
    assert_eq!(ResolvedModel::from_choice(ModelChoice::AkimaSpline, 2, 3), ResolvedModel::AkimaSpline);
    let spline = ResolvedModel::from_choice(ModelChoice::NaturalCubicSpline, 1, 1);
    assert_eq!(spline.parametric_family(), None);
    assert_eq!(spline.spline_family(), Some(SplineFamilyKind::NaturalCubic));
    assert_eq!(spline.spline_min_knots(), Some(3));
    assert_eq!(ResolvedModel::Parametric(CurveFamily::Power).spline_min_knots(), None);
    assert_eq!(model_min_points(ModelChoice::Rational, 1, 5), 11);
    assert_eq!(model_min_points(ModelChoice::AkimaSpline, 1, 1), 5);
    assert_eq!(model_group(ModelChoice::Gompertz), ModelGroup::ParametricSigmoid);
    assert_eq!(model_group(ModelChoice::Emg), ModelGroup::ParametricPeak);
    assert_eq!(model_group(ModelChoice::Rational), ModelGroup::ParametricGeneral);
}

#[test]
fn param_init_method_support_matrix_is_correct() {
    assert!(ParamInitMethod::Default.is_supported_for_family(CurveFamily::Arrhenius));
    assert!(ParamInitMethod::DataBased.is_supported_for_family(CurveFamily::Linear));
    assert!(ParamInitMethod::Randomized.is_supported_for_family(CurveFamily::Power));
    assert!(ParamInitMethod::DataBased.is_supported_for_family(CurveFamily::BiExponential));
    assert!(ParamInitMethod::Randomized.is_supported_for_family(CurveFamily::DampedSinusoid));
    assert!(ParamInitMethod::DataBased.is_supported_for_family(CurveFamily::Rational11));
    assert!(ParamInitMethod::DataBased.is_supported_for_family(CurveFamily::Rational22));
    assert!(ParamInitMethod::DataBased.is_supported_for_family(CurveFamily::Rational33));
    assert!(ParamInitMethod::DataBased.is_supported_for_family(CurveFamily::Rational44));
    assert!(ParamInitMethod::DataBased.is_supported_for_family(CurveFamily::Rational55));
    assert!(ParamInitMethod::Randomized.is_supported_for_family(CurveFamily::Emg));
    assert!(ParamInitMethod::Randomized.is_supported_for_family(CurveFamily::PseudoVoigt));

    assert!(!ParamInitMethod::DataBased.is_supported_for_family(CurveFamily::Arrhenius));
    assert!(!ParamInitMethod::Randomized.is_supported_for_family(CurveFamily::FourPl));
}

#[test]
fn advanced_init_covers_polynomials_and_rationals() {
    assert!(is_advanced_param_init_supported(CurveFamily::Octic));
    assert!(is_advanced_param_init_supported(CurveFamily::Rational55));
    assert!(!is_advanced_param_init_supported(CurveFamily::SaturatingTrendBasis2));
}

fn exponents(plan: &[ParamScale]) -> Vec<(i32, i32)> {
    plan.iter().map(|scale| (scale.x_exp, scale.y_exp)).collect()
}

#[test]
fn scale_plan_has_one_scale_per_parameter() {
    for family in CurveFamily::all() {
        match param_scale_plan(family) {
            Some(plan) => assert_eq!(plan.len(), family.parameter_count(), "{family:?}"),
            None => assert_eq!(family, CurveFamily::Power),
        }
    }
}

#[test]
fn scale_plan_exponents_for_polynomial_and_rational_models() {
    let cubic = param_scale_plan(CurveFamily::Cubic).expect("cubic has a plan");
    assert_eq!(exponents(&cubic), vec![(3, -1), (2, -1), (1, -1), (0, -1)]);
    let rational11 = param_scale_plan(CurveFamily::Rational11).expect("1/1 has a plan");
    assert_eq!(exponents(&rational11), vec![(1, -1), (0, -1), (1, 0), (0, -1)]);
    let rational22 = param_scale_plan(CurveFamily::Rational22).expect("2/2 has a plan");
    assert_eq!(exponents(&rational22), vec![(2, -1), (1, -1), (0, -1), (1, 0), (2, 0)]);
    let emg = param_scale_plan(CurveFamily::Emg).expect("EMG has a plan");
    assert_eq!(exponents(&emg), vec![(-1, -1), (-1, 0), (-1, 0), (-1, 0), (0, -1)]);
    assert_eq!(ScaleDirection::ToNormalized.error_prefix(), "Failed to normalize parameters");
    assert_eq!(ScaleDirection::FromNormalized.error_prefix(), "Failed to denormalize parameters");
}

#[test]
fn rational_model_degree_controls_resolved_family_and_parameter_count() {
    let model = ResolvedModel::from_choice(ModelChoice::Rational, 1, 3);
    assert_eq!(model.parametric_family(), Some(CurveFamily::Rational33));
    assert_eq!(CurveFamily::Rational33.parameter_count(), 7);

    let model = ResolvedModel::from_choice(ModelChoice::Rational, 1, 5);
    assert_eq!(model.parametric_family(), Some(CurveFamily::Rational55));
    assert_eq!(CurveFamily::Rational55.parameter_count(), 11);
}

#[test]
fn model_choices_are_listed_once_each() {
    let models = ModelChoice::all();
    assert_eq!(models.len(), 28);
    assert_eq!(models[0], ModelChoice::Polynomial);
    assert_eq!(models[21], ModelChoice::Rational);
    assert_eq!(models[27], ModelChoice::AkimaSpline);
    for (i, a) in models.iter().enumerate() {
        for b in &models[i + 1..] {
            assert_ne!(a, b);
        }
    }
}

fn x_positive(points: &[(f64, f64)]) -> Vec<bool> {
    points.iter().map(|&(x, _)| x > 0.0).collect()
}

#[test]
fn family_validation_checks_min_points_and_domain() {
    let points = [(-1.0, 1.0), (1.0, 2.0)];
    assert_eq!(
        CurveFamily::Power.check_points(&x_positive(&points)),
        Err(FamilyPointsError::NonPositiveX { index: 0 })
    );
    assert_eq!(
        CurveFamily::NaturalLog.check_points(&x_positive(&points)),
        Err(FamilyPointsError::NonPositiveX { index: 0 })
    );

    let short_points = [(1.0, 1.0), (2.0, 2.0)];
    assert_eq!(
        CurveFamily::Quadratic.check_points(&x_positive(&short_points)),
        Err(FamilyPointsError::TooFewPoints { len: 2, min_required: 3 })
    );
    assert_eq!(
        CurveFamily::PseudoVoigt.check_points(&x_positive(&short_points)),
        Err(FamilyPointsError::TooFewPoints { len: 2, min_required: 6 })
    );
    assert_eq!(CurveFamily::Linear.check_points(&x_positive(&points)), Ok(()));
    assert_eq!(
        CurveFamily::Power.check_points(&x_positive(&[(1.0, 1.0), (2.0, 1.0), (0.0, 1.0)])),
        Err(FamilyPointsError::NonPositiveX { index: 2 })
    );
}

#[test]
fn family_labels_and_parameter_names_are_distinct() {
    let families = CurveFamily::all();
    for (i, a) in families.iter().enumerate() {
        assert!(!a.label().is_empty());
        for b in &families[i + 1..] {
            assert_ne!(a.label(), b.label());
        }
        let names = a.parameter_names();
        assert_eq!(names.len(), a.parameter_count());
        for (k, x) in names.iter().enumerate() {
            for y in &names[k + 1..] {
                assert_ne!(x, y, "{a:?}");
            }
        }
    }
    assert_eq!(CurveFamily::FourPl.label(), "4PL");
    assert_eq!(CurveFamily::Rational33.label(), "Rational (3/3)");
    assert_eq!(CurveFamily::SaturatingTrendBasis2.label(), "Saturating Trend Basis (2 tau)");
    assert_eq!(CurveFamily::Emg.parameter_names(), &["a", "mu", "sigma", "tau", "c"]);
    assert_eq!(CurveFamily::SaturatingTrendBasis1.parameter_names(), &["c", "w1"]);
}
