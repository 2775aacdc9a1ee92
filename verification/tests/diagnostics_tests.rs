use curve_fit::diagnostics::{upsert_iteration_point, IterationDiagnostics, IterationPoint};
use curve_fit::family::CurveFamily;

/// The metrics recorded for one iteration, in the order loss, MSE, RMSE, MAE, soft L1,
/// |R²|, maximum absolute error.
type Metrics = [f64; 7];

fn metrics_snapshot(
    loss: f64,
    mse: f64,
    rmse: f64,
    mae: f64,
    soft_l1: f64,
    r2: f64,
    max_abs_error: f64,
) -> Metrics {
    [loss, mse, rmse, mae, soft_l1, r2.abs(), max_abs_error]
}

fn metric_series(diagnostics: &IterationDiagnostics<Metrics, f64>, index: usize) -> Vec<[f64; 2]> {
    diagnostics
        .metric_points
        .iter()
        .map(|point| [point.iteration as f64, point.value[index]])
        .collect()
}

fn parameter_series(diagnostics: &IterationDiagnostics<Metrics, f64>, index: usize) -> Vec<[f64; 2]> {
    diagnostics.parameter_series[index]
        .iter()
        .map(|point| [point.iteration as f64, point.value])
        .collect()
}

fn names(diagnostics: &IterationDiagnostics<Metrics, f64>) -> Vec<String> {
    diagnostics.parameter_names.clone()
}

fn linear_fit_start() -> IterationDiagnostics<Metrics, f64> {
    let mut diagnostics = IterationDiagnostics::new();
    // A line through its own points: every error metric is zero and R² is one.
    diagnostics.initialize(
        CurveFamily::Linear,
        metrics_snapshot(0.0, 0.0, 0.0, 0.0, 0.0, 1.0, 0.0),
        &vec![2.0, 1.0],
    );
    diagnostics
}

#[test]
fn diagnostics_initialize_stores_iteration_zero_state() {
    let diagnostics = linear_fit_start();

    assert_eq!(names(&diagnostics), vec!["a".to_string(), "b".to_string()]);
    assert_eq!(metric_series(&diagnostics, 0), vec![[0.0, 0.0]]);
    assert_eq!(metric_series(&diagnostics, 1), vec![[0.0, 0.0]]);
    assert_eq!(metric_series(&diagnostics, 2), vec![[0.0, 0.0]]);
    assert_eq!(metric_series(&diagnostics, 3), vec![[0.0, 0.0]]);
    assert_eq!(metric_series(&diagnostics, 4), vec![[0.0, 0.0]]);
    assert_eq!(metric_series(&diagnostics, 5), vec![[0.0, 1.0]]);
    assert_eq!(metric_series(&diagnostics, 6), vec![[0.0, 0.0]]);
    assert_eq!(diagnostics.parameter_series.len(), 2);
    assert_eq!(parameter_series(&diagnostics, 0), vec![[0.0, 2.0]]);
    assert_eq!(parameter_series(&diagnostics, 1), vec![[0.0, 1.0]]);
}

#[test]
fn diagnostics_append_replaces_duplicate_iteration() {
    let mut diagnostics = linear_fit_start();

    diagnostics.append(
        2,
        metrics_snapshot(5.0, 5.0, 5.0_f64.sqrt(), 2.0, 1.75, -1.5, 3.0),
        CurveFamily::Linear,
        &vec![1.0, 0.0],
    );
    diagnostics.append(
        2,
        metrics_snapshot(3.0, 3.0, 3.0_f64.sqrt(), 1.5, 1.1, -2.0, 2.0),
        CurveFamily::Linear,
        &vec![-1.5, 0.5],
    );

    assert_eq!(diagnostics.metric_points.len(), 2);
    assert_eq!(metric_series(&diagnostics, 0)[1], [2.0, 3.0]);
    assert_eq!(metric_series(&diagnostics, 1)[1], [2.0, 3.0]);
    assert_eq!(metric_series(&diagnostics, 2)[1], [2.0, 3.0_f64.sqrt()]);
    assert_eq!(metric_series(&diagnostics, 3)[1], [2.0, 1.5]);
    assert_eq!(metric_series(&diagnostics, 4)[1], [2.0, 1.1]);
    assert_eq!(metric_series(&diagnostics, 5)[1], [2.0, 2.0]);
    assert_eq!(metric_series(&diagnostics, 6)[1], [2.0, 2.0]);
    assert_eq!(diagnostics.parameter_series[0].len(), 2);
    assert_eq!(parameter_series(&diagnostics, 0)[1], [2.0, -1.5]);
    assert_eq!(diagnostics.parameter_series[1].len(), 2);
    assert_eq!(parameter_series(&diagnostics, 1)[1], [2.0, 0.5]);
}

#[test]
fn diagnostics_append_resets_when_family_changes() {
    let mut diagnostics = linear_fit_start();
    diagnostics.append(
        4,
        metrics_snapshot(1.0, 1.0, 1.0, 1.0, 0.8, 0.2, 1.0),
        CurveFamily::Quadratic,
        &vec![1.0, -2.0, 3.0],
    );

    assert_eq!(
        names(&diagnostics),
        vec!["a".to_string(), "b".to_string(), "c".to_string()]
    );
    assert_eq!(metric_series(&diagnostics, 0), vec![[4.0, 1.0]]);
    assert_eq!(diagnostics.parameter_series.len(), 3);
    assert_eq!(parameter_series(&diagnostics, 0), vec![[4.0, 1.0]]);
    assert_eq!(parameter_series(&diagnostics, 1), vec![[4.0, -2.0]]);
    assert_eq!(parameter_series(&diagnostics, 2), vec![[4.0, 3.0]]);
}

#[test]
fn diagnostics_append_spline_tracks_knot_parameters() {
    let mut diagnostics: IterationDiagnostics<Metrics, f64> = IterationDiagnostics::new();

    diagnostics.append_spline(
        1,
        metrics_snapshot(2.5, 2.5, 2.5_f64.sqrt(), 1.2, 1.6, -0.25, 2.0),
        &vec![0.5, -1.0],
    );
    diagnostics.append_spline(
        2,
        metrics_snapshot(1.5, 1.5, 1.5_f64.sqrt(), 0.9, 1.0, 0.25, 1.4),
        &vec![0.75, -0.25],
    );

    assert_eq!(
        names(&diagnostics),
        vec!["knot_y[0]".to_string(), "knot_y[1]".to_string()]
    );
    assert_eq!(metric_series(&diagnostics, 0), vec![[1.0, 2.5], [2.0, 1.5]]);
    assert_eq!(metric_series(&diagnostics, 4), vec![[1.0, 1.6], [2.0, 1.0]]);
    assert_eq!(metric_series(&diagnostics, 5), vec![[1.0, 0.25], [2.0, 0.25]]);
    assert_eq!(parameter_series(&diagnostics, 0), vec![[1.0, 0.5], [2.0, 0.75]]);
    assert_eq!(parameter_series(&diagnostics, 1), vec![[1.0, -1.0], [2.0, -0.25]]);
}

#[test]
fn spline_series_start_over_when_the_knot_count_changes() {
    let mut diagnostics: IterationDiagnostics<Metrics, f64> = IterationDiagnostics::new();
    diagnostics.append_spline(1, metrics_snapshot(1.0, 1.0, 1.0, 1.0, 1.0, 0.0, 1.0), &vec![0.5, -1.0]);
    diagnostics.append_spline(
        2,
        metrics_snapshot(1.0, 1.0, 1.0, 1.0, 1.0, 0.0, 1.0),
        &vec![1.0, 2.0, 3.0, 4.0, 5.0, 6.0, 7.0, 8.0, 9.0, 10.0, 11.0],
    );
    assert_eq!(diagnostics.parameter_names.len(), 11);
    assert_eq!(diagnostics.parameter_names[10], "knot_y[10]");
    assert_eq!(diagnostics.metric_points.len(), 1);
    assert_eq!(parameter_series(&diagnostics, 10), vec![[2.0, 11.0]]);

    diagnostics.append(3, metrics_snapshot(1.0, 1.0, 1.0, 1.0, 1.0, 0.0, 1.0), CurveFamily::Linear, &vec![1.0, 2.0]);
    assert_eq!(diagnostics.family, Some(CurveFamily::Linear));
    assert_eq!(diagnostics.spline_parameter_count, None);
    assert_eq!(diagnostics.parameter_series.len(), 2);

    diagnostics.clear();
    assert!(diagnostics.parameter_names.is_empty());
    assert!(diagnostics.metric_points.is_empty());
    assert_eq!(diagnostics.family, None);
}

#[test]
fn upsert_replaces_only_the_last_point_of_the_same_iteration() {
    let mut series = Vec::new();
    upsert_iteration_point(&mut series, 1, 'a');
    upsert_iteration_point(&mut series, 2, 'b');
    upsert_iteration_point(&mut series, 2, 'c');
    upsert_iteration_point(&mut series, 1, 'd');
    assert_eq!(
        series,
        vec![
            IterationPoint { iteration: 1, value: 'a' },
            IterationPoint { iteration: 2, value: 'c' },
            IterationPoint { iteration: 1, value: 'd' },
        ]
    );
}
