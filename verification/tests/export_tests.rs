use curve_fit::export::{
    default_fit_export_file_name,
    curve_family_id, curve_family_ref, fit_export_file_name, metric_quantization_decimal_places,
    model_choice_id, model_choice_ref, objective_metric_ref, optimizer_method_ref,
    resolved_model_ref, spline_family_ref, MetricQuantization,
};
use curve_fit::family::CurveFamily;
use curve_fit::model_catalog::{ModelChoice, OptimizationLossMetric, ResolvedModel, SplineFamilyKind};
use curve_fit::optimizer::OptimizerMethod;

#[test]
fn rational_choice_shares_one_selected_id_and_fitted_ids_follow_the_degree() {
    assert_eq!(model_choice_id(ModelChoice::Rational), "rational");
    let fitted = resolved_model_ref(ResolvedModel::from_choice(ModelChoice::Rational, 1, 5));
    assert_eq!(fitted.id, "rational_55");
    assert_eq!(fitted.name, "Rational (5/5)");
}

#[test]
fn parametric_and_spline_records_name_their_models() {
    let selected = model_choice_ref(ModelChoice::Polynomial);
    assert_eq!((selected.id, selected.name), ("polynomial", "Polynomial"));
    let fitted = curve_family_ref(CurveFamily::Linear);
    assert_eq!((fitted.id, fitted.name), ("linear", "Linear"));
    let spline = model_choice_ref(ModelChoice::LinearSpline);
    assert_eq!((spline.id, spline.name), ("linear_spline", "Linear Spline"));
    let kind = spline_family_ref(SplineFamilyKind::MonotoneCubic);
    assert_eq!((kind.id, kind.name), ("monotone_cubic_spline", "Monotone Cubic Spline"));
    let method = optimizer_method_ref(OptimizerMethod::Adam);
    assert_eq!((method.id, method.name), ("adam", "Adam"));
    let lbfgs = optimizer_method_ref(OptimizerMethod::Lbfgs);
    assert_eq!(lbfgs.id, "lbfgs");
    let metric = objective_metric_ref(OptimizationLossMetric::SoftL1);
    assert_eq!((metric.id, metric.name), ("soft_l1", "Soft L1"));
    let mae = objective_metric_ref(OptimizationLossMetric::Mae);
    assert_eq!((mae.id, mae.name), ("mae", "Mean Absolute Error (L1)"));
    assert_eq!(curve_family_id(CurveFamily::PseudoVoigt), "pseudo_voigt");
}

#[test]
fn quantization_places_are_exported_only_when_enabled() {
    assert_eq!(metric_quantization_decimal_places(MetricQuantization::Disabled), None);
    assert_eq!(metric_quantization_decimal_places(MetricQuantization::Enabled(4)), Some(4));
}

#[test]
fn export_file_name_replaces_colons() {
    assert_eq!(
        fit_export_file_name("2024-01-02T03:04:05.678Z"),
        "fit-result-2024-01-02T03-04-05.678Z.json"
    );
}

#[test]
fn default_export_file_name_holds_the_current_utc_time() {
    let name = default_fit_export_file_name();
    let chars: Vec<char> = name.chars().collect();
    assert!(name.starts_with("fit-result-"));
    assert!(name.ends_with("Z.json"));
    assert_eq!(chars.len(), "fit-result-".len() + 24 + ".json".len());
    let timestamp = &chars[11..35];
    for (i, c) in timestamp.iter().enumerate() {
        match i {
            4 | 7 | 13 | 16 => assert_eq!(*c, '-'),
            10 => assert_eq!(*c, 'T'),
            19 => assert_eq!(*c, '.'),
            23 => assert_eq!(*c, 'Z'),
            _ => assert!(c.is_ascii_digit(), "{name}"),
        }
    }
}
