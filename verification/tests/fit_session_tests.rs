use curve_fit::fit_session::{FitPollAction, FitSession, FitWorkerEvent};
use curve_fit::diagnostics::IterationDiagnostics;
use curve_fit::family::CurveFamily;
use curve_fit::fit_completion::{
    clear_fit_outputs, complete_spline_fit, receive_finished_parametric_fit, receive_finished_spline_fit, SplineTraceEntry,
    TraceEntry,
};
use curve_fit::replay::{upsert_replay_frame_in, ReplayFrame, ReplayState};
use curve_fit::status::StatusMessage;

fn running() -> FitSession {
    let mut session = FitSession::new();
    assert!(session.start_fit_run());
    session
}

#[test]
fn finished_fit_is_applied_and_detaches_the_worker() {
    let mut session = running();
    assert!(matches!(session.status, Some(StatusMessage::FittingInProgress)));
    assert_eq!(session.poll_fit_worker(FitWorkerEvent::Pending), FitPollAction::Keep);
    assert!(session.fit_in_progress);
    assert_eq!(session.poll_fit_worker(FitWorkerEvent::Finished), FitPollAction::ApplyParametric);
    assert!(!session.fit_in_progress);
    assert!(!session.worker_attached);
    assert!(matches!(session.status, Some(StatusMessage::FitCompleted)));
}

#[test]
fn stopped_fit_clears_outputs_and_sets_stopped_status_after_stop_request() {
    let mut session = running();
    assert!(session.request_stop_fit(true));
    assert!(matches!(session.status, Some(StatusMessage::FittingStopping)));
    assert_eq!(session.poll_fit_worker(FitWorkerEvent::Stopped), FitPollAction::ClearOutputs);
    assert!(matches!(session.status, Some(StatusMessage::FitStopped)));
}

fn two_frame_replay() -> ReplayState<(i32, i32), u32> {
    let mut replay: ReplayState<(i32, i32), u32> = ReplayState::new();
    replay.autoplay_on_fit = false;
    replay.frames = vec![
        ReplayFrame { iteration: 0, payload: (1, 0) },
        ReplayFrame { iteration: 11, payload: (3, -1) },
    ];
    replay.selected_index = Some(0);
    replay
}

#[test]
fn stopped_fit_clears_ui_outputs_and_sets_stopped_status() {
    let mut session = FitSession::new();
    session.fit_in_progress = true;
    session.worker_attached = true;
    session.status = Some(StatusMessage::FittingInProgress);
    let mut replay = two_frame_replay();
    let mut diagnostics: IterationDiagnostics<Metrics, f64> = IterationDiagnostics::new();
    diagnostics.initialize(CurveFamily::Linear, metrics_snapshot(1.0, 1.0, 1.0, 1.0, 1.0, 0.0, 1.0), &vec![1.0, 0.0]);
    let mut fit_result: Option<FitResult> = None;
    let mut spline_result: Option<Vec<(f64, f64)>> = None;

    let action = session.poll_fit_worker(FitWorkerEvent::Stopped);
    assert_eq!(action, FitPollAction::ClearOutputs);
    if action == FitPollAction::ClearOutputs {
        clear_fit_outputs(&mut replay, &mut diagnostics, &mut fit_result, &mut spline_result);
    }
    let preview_iteration = replay.replay_selected_iteration();

    assert!(!session.fit_in_progress);
    assert!(matches!(session.status, Some(StatusMessage::FitStopped)));
    assert!(fit_result.is_none());
    assert!(spline_result.is_none());
    assert!(preview_iteration.is_none());
    assert!(replay.frames.is_empty());
    assert!(replay.selected_index.is_none());
    assert!(diagnostics.metric_points.is_empty());
}

/// A fit result as the interface keeps it: the family, the parameters and the number of
/// iterations.
#[derive(Debug, Clone, Copy, PartialEq)]
struct FitResult {
    family: CurveFamily,
    a: f64,
    b: f64,
    iterations: u64,
}

type Metrics = [f64; 7];

fn metrics_snapshot(loss: f64, mse: f64, rmse: f64, mae: f64, soft_l1: f64, r2: f64, max_abs_error: f64) -> Metrics {
    [loss, mse, rmse, mae, soft_l1, r2.abs(), max_abs_error]
}

fn linear_entry(iteration: u64, metrics: Metrics, a: f64, b: f64) -> TraceEntry<Metrics, f64, (f64, f64)> {
    TraceEntry { iteration, metrics, family: CurveFamily::Linear, values: vec![a, b], payload: (a, b) }
}

#[test]
fn finished_message_applies_buffered_parametric_trace_in_single_poll() {
    let mut session = FitSession::new();
    session.fit_in_progress = true;
    session.worker_attached = true;
    session.status = Some(StatusMessage::FittingInProgress);
    let mut replay: ReplayState<(f64, f64), u32> = ReplayState::new();
    replay.autoplay_on_fit = false;
    let mut diagnostics: IterationDiagnostics<Metrics, f64> = IterationDiagnostics::new();
    // The run was seeded with its initial state as iteration 0 (the points lie on y = 2x + 1,
    // so the line a = 0, b = 0 has these metrics).
    let initial_metrics = metrics_snapshot(6.0, 6.0, 6.0_f64.sqrt(), 2.0, 2.0, -2.0, 3.0);
    diagnostics.initialize(CurveFamily::Linear, initial_metrics, &vec![0.0, 0.0]);
    upsert_replay_frame_in(&mut replay.frames, ReplayFrame { iteration: 0, payload: (0.0, 0.0) });
    assert_eq!(replay.frames.len(), 1);
    assert_eq!(diagnostics.metric_points.len(), 1);

    let trace = vec![
        linear_entry(1, metrics_snapshot(2.0, 2.0, 1.4, 1.2, 1.1, 0.1, 2.0), 0.4, 0.8),
        linear_entry(2, metrics_snapshot(0.5, 0.5, 0.7, 0.6, 0.55, 0.7, 0.9), 1.2, 0.5),
    ];
    let worker_result = FitResult { family: CurveFamily::Linear, a: 2.0, b: 1.0, iterations: 3 };
    let final_metrics = metrics_snapshot(0.0, 0.0, 0.0, 0.0, 0.0, 1.0, 0.0);

    let mut fit_result: Option<FitResult> = None;
    let mut spline_result: Option<Vec<(f64, f64)>> = None;
    let selected = receive_finished_parametric_fit(
        &mut session,
        &mut replay,
        &mut diagnostics,
        &mut fit_result,
        &mut spline_result,
        worker_result,
        Some(linear_entry(0, initial_metrics, 0.0, 0.0)),
        trace,
        linear_entry(worker_result.iterations, final_metrics, worker_result.a, worker_result.b),
        true,
    );
    let preview_iteration = selected.map(|index| replay.frames[index].iteration);

    assert!(!session.fit_in_progress);
    assert!(!session.worker_attached);
    assert!(matches!(session.status, Some(StatusMessage::FitCompleted)));
    assert_eq!(replay.frames.len(), 4);
    assert_eq!(diagnostics.metric_points.len(), 4);
    assert_eq!(preview_iteration, Some(3));
    assert!(!replay.autoplay);
    assert!(matches!(
        fit_result,
        Some(FitResult { family: CurveFamily::Linear, iterations: 3, .. })
    ));
    let iterations: Vec<u64> = replay.frames.iter().map(|frame| frame.iteration).collect();
    assert_eq!(iterations, vec![0, 1, 2, 3]);
    assert_eq!(replay.frames[3].payload, (2.0, 1.0));
    assert_eq!(diagnostics.parameter_series[0].len(), 4);
}

#[test]
fn finished_spline_trace_is_applied_and_replayed_from_the_start() {
    let mut session = FitSession::new();
    session.fit_in_progress = true;
    session.worker_attached = true;
    session.status = Some(StatusMessage::FittingInProgress);
    let mut replay: ReplayState<Vec<(f64, f64)>, u32> = ReplayState::new();
    let mut diagnostics: IterationDiagnostics<Metrics, f64> = IterationDiagnostics::new();

    assert_eq!(session.poll_fit_worker(FitWorkerEvent::SplineFinished), FitPollAction::ApplySpline);
    let metrics = metrics_snapshot(1.0, 1.0, 1.0, 1.0, 1.0, 0.5, 1.0);
    let selected = complete_spline_fit(
        &mut replay,
        &mut diagnostics,
        Some(vec![(0.0, 0.0), (1.0, 0.0)]),
        vec![SplineTraceEntry { iteration: 1, metrics, knot_y: vec![0.5, 0.5], payload: vec![(0.0, 0.5), (1.0, 0.5)] }],
        SplineTraceEntry { iteration: 4, metrics, knot_y: vec![0.0, 1.0], payload: vec![(0.0, 0.0), (1.0, 1.0)] },
    );

    assert!(matches!(session.status, Some(StatusMessage::FitCompleted)));
    assert_eq!(selected, Some(0));
    assert!(replay.autoplay);
    assert_eq!(replay.frames.len(), 3);
    assert_eq!(diagnostics.metric_points.len(), 2);
    assert_eq!(diagnostics.parameter_names, vec!["knot_y[0]".to_string(), "knot_y[1]".to_string()]);
}

#[test]
fn clear_fit_outputs_requests_cancellation_without_dropping_progress_state() {
    let mut session = FitSession::new();
    session.fit_in_progress = true;
    session.worker_attached = true;
    session.status = Some(StatusMessage::FittingInProgress);
    let mut replay = two_frame_replay();
    replay.frames.truncate(1);
    replay.autoplay = true;
    let mut diagnostics: IterationDiagnostics<Metrics, f64> = IterationDiagnostics::new();
    let mut fit_result = Some(FitResult { family: CurveFamily::Linear, a: 1.0, b: 0.0, iterations: 1 });
    let mut spline_result: Option<Vec<(f64, f64)>> = None;

    let raise_cancel = session.cancel_fit_and_discard_updates();
    clear_fit_outputs(&mut replay, &mut diagnostics, &mut fit_result, &mut spline_result);

    assert!(raise_cancel);
    assert!(session.fit_in_progress);
    assert!(session.discard_updates);
    assert!(fit_result.is_none());
    assert!(replay.replay_selected_iteration().is_none());
    assert!(replay.frames.is_empty());
    assert!(replay.selected_index.is_none());
    assert!(!replay.autoplay);
}

#[test]
fn cancelled_fit_discards_its_result() {
    let mut session = running();
    assert!(session.cancel_fit_and_discard_updates());
    assert!(session.discard_updates);
    assert!(matches!(session.status, Some(StatusMessage::FittingStopping)));
    assert_eq!(session.poll_fit_worker(FitWorkerEvent::SplineFinished), FitPollAction::DiscardResult);
    assert!(matches!(session.status, Some(StatusMessage::FitStopped)));
    assert!(!session.discard_updates);
}

#[test]
fn failures_and_lost_workers_show_errors() {
    let mut session = running();
    assert_eq!(
        session.poll_fit_worker(FitWorkerEvent::Failed("bad input".to_string())),
        FitPollAction::ClearOutputs
    );
    assert!(matches!(&session.status, Some(StatusMessage::Error(m)) if m == "bad input"));
    let mut session = running();
    session.poll_fit_worker(FitWorkerEvent::Disconnected);
    assert!(matches!(
        &session.status,
        Some(StatusMessage::Error(m)) if m == "Fit worker channel disconnected unexpectedly"
    ));
}

#[test]
fn idle_session_ignores_cancel_and_repeated_start() {
    let mut session = FitSession::new();
    assert!(!session.cancel_fit_and_discard_updates());
    assert!(!session.request_stop_fit(false));
    assert!(matches!(session.status, Some(StatusMessage::Ready)));
    assert!(session.start_fit_run());
    assert!(!session.start_fit_run());
}

#[test]
fn discarded_finished_run_changes_no_output() {
    let mut session = FitSession::new();
    session.fit_in_progress = true;
    session.worker_attached = true;
    session.status = Some(StatusMessage::FittingInProgress);
    assert!(session.cancel_fit_and_discard_updates());
    let mut replay: ReplayState<(f64, f64), u32> = ReplayState::new();
    upsert_replay_frame_in(&mut replay.frames, ReplayFrame { iteration: 0, payload: (0.0, 0.0) });
    let mut diagnostics: IterationDiagnostics<Metrics, f64> = IterationDiagnostics::new();
    let mut fit_result: Option<FitResult> = None;
    let mut spline_result: Option<Vec<(f64, f64)>> = None;
    let metrics = metrics_snapshot(1.0, 1.0, 1.0, 1.0, 1.0, 0.0, 1.0);

    let selected = receive_finished_spline_fit(
        &mut session,
        &mut replay,
        &mut diagnostics,
        &mut fit_result,
        &mut spline_result,
        vec![(0.0, 1.0)],
        None,
        vec![],
        SplineTraceEntry { iteration: 2, metrics, knot_y: vec![1.0, 2.0], payload: (1.0, 2.0) },
    );

    assert_eq!(selected, None);
    assert!(matches!(session.status, Some(StatusMessage::FitStopped)));
    assert!(!session.fit_in_progress);
    assert_eq!(replay.frames.len(), 1);
    assert!(diagnostics.metric_points.is_empty());
    assert!(fit_result.is_none());
    assert!(spline_result.is_none());
}
