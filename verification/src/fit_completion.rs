//! Applying a finished fit in one step: the iteration-0 state, every buffered trace entry
//! and then the final result go into fresh replay frames and diagnostics series, and the
//! replay is positioned for the finished run.
//!
//! An entry carries what the two buffers keep of an iteration: its metrics and parameter
//! values for the diagnostics, and a payload (parameters or a sampled curve) for the
//! replay frame.

use vstd::prelude::*;
use crate::diagnostics::{
    cleared_view, family_reset, spec_append, spec_append_spline, DiagnosticsView,
    IterationDiagnostics,
};
use crate::family::CurveFamily;
use crate::fit_session::{spec_stopped_if_fitting, FitPollAction, FitSession, FitWorkerEvent};
use crate::status::StatusMessage;
use crate::replay::{upsert_replay_frame_in, ReplayFrame, ReplayState};

verus! {

/// One iteration of a parametric run as the worker reports it.
pub struct TraceEntry<M, V, P> {
    pub iteration: u64,
    pub metrics: M,
    pub family: CurveFamily,
    pub values: Vec<V>,
    pub payload: P,
}

/// One iteration of a spline run as the worker reports it.
pub struct SplineTraceEntry<M, V, P> {
    pub iteration: u64,
    pub metrics: M,
    pub knot_y: Vec<V>,
    pub payload: P,
}

/// `frames` with `frame` recorded: it replaces the last frame of the same iteration, else
/// it is appended.
pub open spec fn spec_upsert_frame<P>(frames: Seq<ReplayFrame<P>>, frame: ReplayFrame<P>) -> Seq<ReplayFrame<P>> {
    if frames.len() > 0 && frames.last().iteration == frame.iteration {
        frames.update(frames.len() - 1, frame)
    } else {
        frames.push(frame)
    }
}

/// `frames` with a frame recorded for every entry of a parametric trace, in order.
pub open spec fn frames_with_trace<M, V, P>(frames: Seq<ReplayFrame<P>>, trace: Seq<TraceEntry<M, V, P>>) -> Seq<
    ReplayFrame<P>,
>
    decreases trace.len(),
{
    if trace.len() == 0 {
        frames
    } else {
        spec_upsert_frame(
            frames_with_trace(frames, trace.drop_last()),
            ReplayFrame { iteration: trace.last().iteration, payload: trace.last().payload },
        )
    }
}

/// `d` with every entry of a parametric trace recorded, in order.
pub open spec fn diagnostics_with_trace<M, V, P>(d: DiagnosticsView<M, V>, trace: Seq<TraceEntry<M, V, P>>) -> DiagnosticsView<M, V>
    decreases trace.len(),
{
    if trace.len() == 0 {
        d
    } else {
        let e = trace.last();
        spec_append(diagnostics_with_trace(d, trace.drop_last()), e.iteration, e.metrics, e.family, e.values@)
    }
}

/// `frames` with a frame recorded for every entry of a spline trace, in order.
pub open spec fn frames_with_spline_trace<M, V, P>(
    frames: Seq<ReplayFrame<P>>,
    trace: Seq<SplineTraceEntry<M, V, P>>,
) -> Seq<ReplayFrame<P>>
    decreases trace.len(),
{
    if trace.len() == 0 {
        frames
    } else {
        spec_upsert_frame(
            frames_with_spline_trace(frames, trace.drop_last()),
            ReplayFrame { iteration: trace.last().iteration, payload: trace.last().payload },
        )
    }
}

/// `d` with every entry of a spline trace recorded, in order.
pub open spec fn diagnostics_with_spline_trace<M, V, P>(
    d: DiagnosticsView<M, V>,
    trace: Seq<SplineTraceEntry<M, V, P>>,
) -> DiagnosticsView<M, V>
    decreases trace.len(),
{
    if trace.len() == 0 {
        d
    } else {
        let e = trace.last();
        spec_append_spline(diagnostics_with_spline_trace(d, trace.drop_last()), e.iteration, e.metrics, e.knot_y@)
    }
}

/// The frames of a finished parametric run: the initial state as iteration 0 when known,
/// each trace entry, then the result.
pub open spec fn parametric_completion_frames<M, V, P>(
    initial: Option<TraceEntry<M, V, P>>,
    trace: Seq<TraceEntry<M, V, P>>,
    result: TraceEntry<M, V, P>,
) -> Seq<ReplayFrame<P>> {
    let start = match initial {
        Some(e) => seq![ReplayFrame { iteration: 0, payload: e.payload }],
        None => Seq::empty(),
    };
    spec_upsert_frame(
        frames_with_trace(start, trace),
        ReplayFrame { iteration: result.iteration, payload: result.payload },
    )
}

/// The diagnostics of a finished parametric run: the initial state as iteration 0 when
/// known, each trace entry, then the result when its metrics are known.
pub open spec fn parametric_completion_diagnostics<M, V, P>(
    initial: Option<TraceEntry<M, V, P>>,
    trace: Seq<TraceEntry<M, V, P>>,
    result: TraceEntry<M, V, P>,
    record_result: bool,
) -> DiagnosticsView<M, V> {
    let start = match initial {
        Some(e) => spec_append(family_reset::<M, V>(e.family), 0, e.metrics, e.family, e.values@),
        None => cleared_view::<M, V>(),
    };
    let traced = diagnostics_with_trace(start, trace);
    if record_result {
        spec_append(traced, result.iteration, result.metrics, result.family, result.values@)
    } else {
        traced
    }
}

/// The frames of a finished spline run: the initial curve as iteration 0 when known, each
/// trace entry, then the result.
pub open spec fn spline_completion_frames<M, V, P>(
    initial: Option<P>,
    trace: Seq<SplineTraceEntry<M, V, P>>,
    result: SplineTraceEntry<M, V, P>,
) -> Seq<ReplayFrame<P>> {
    let start = match initial {
        Some(curve) => seq![ReplayFrame { iteration: 0, payload: curve }],
        None => Seq::empty(),
    };
    spec_upsert_frame(
        frames_with_spline_trace(start, trace),
        ReplayFrame { iteration: result.iteration, payload: result.payload },
    )
}

/// The diagnostics of a finished spline run: each trace entry, then the result.
pub open spec fn spline_completion_diagnostics<M, V, P>(
    trace: Seq<SplineTraceEntry<M, V, P>>,
    result: SplineTraceEntry<M, V, P>,
) -> DiagnosticsView<M, V> {
    spec_append_spline(
        diagnostics_with_spline_trace(cleared_view::<M, V>(), trace),
        result.iteration,
        result.metrics,
        result.knot_y@,
    )
}

/// Whether the replay is positioned for a finished run over `frames`: playing from the
/// first frame when autoplay after a fit is on and there are two frames or more, else
/// stopped on the last frame; `selected` is the selected position.
pub open spec fn positioned_after_completion<P, T>(
    replay: ReplayState<P, T>,
    frames: Seq<ReplayFrame<P>>,
    autoplay_on_fit: bool,
    selected: Option<usize>,
) -> bool {
    &&& replay.frames@ == frames
    &&& replay.autoplay_on_fit == autoplay_on_fit
    &&& replay.last_step_at is None
    &&& replay.selected_index == selected
    &&& if autoplay_on_fit && frames.len() > 1 {
        selected == Some(0usize) && replay.autoplay
    } else {
        !replay.autoplay && selected == Some((frames.len() - 1) as usize)
    }
}

/// Puts `frames` into the replay, drops the old selection and positions it for the
/// finished run.
fn install_frames<P, T>(replay: &mut ReplayState<P, T>, frames: Vec<ReplayFrame<P>>) -> (selected: Option<usize>)
    requires
        frames@.len() > 0,
    ensures
        positioned_after_completion(*final(replay), frames@, old(replay).autoplay_on_fit, selected),
{
    replay.frames = frames;
    replay.selected_index = None;
    replay.autoplay = false;
    replay.last_step_at = None;
    replay.finalize_replay_after_fit_completion()
}

/// Applies a finished parametric run in one step: fresh diagnostics and frames are built
/// from the initial state (as iteration 0, when known), every trace entry in order and the
/// result (its metrics recorded when `record_result`), they replace the old ones, and the
/// replay is positioned for the run. Returns the selected frame's position.
pub fn complete_parametric_fit<M: Copy, V: Copy, P, T>(
    replay: &mut ReplayState<P, T>,
    diagnostics: &mut IterationDiagnostics<M, V>,
    initial: Option<TraceEntry<M, V, P>>,
    trace: Vec<TraceEntry<M, V, P>>,
    result: TraceEntry<M, V, P>,
    record_result: bool,
) -> (selected: Option<usize>)
    ensures
        final(diagnostics)@ == parametric_completion_diagnostics(initial, trace@, result, record_result),
        positioned_after_completion(
            *final(replay),
            parametric_completion_frames(initial, trace@, result),
            old(replay).autoplay_on_fit,
            selected,
        ),
{
    let ghost entries = trace@;
    let count = trace.len();
    let ghost first = initial;
    let ghost last = result;
    let mut built: IterationDiagnostics<M, V> = IterationDiagnostics::new();
    let mut frames: Vec<ReplayFrame<P>> = Vec::new();
    match initial {
        Some(e) => {
            built.initialize(e.family, e.metrics, &e.values);
            upsert_replay_frame_in(&mut frames, ReplayFrame { iteration: 0, payload: e.payload });
        },
        None => {},
    }
    let ghost start_frames = frames@;
    let ghost start_diagnostics = built@;
    proof {
        assert(start_diagnostics == match first {
            Some(e) => spec_append(family_reset::<M, V>(e.family), 0, e.metrics, e.family, e.values@),
            None => cleared_view::<M, V>(),
        });
        assert(start_frames =~= match first {
            Some(e) => seq![ReplayFrame { iteration: 0, payload: e.payload }],
            None => Seq::<ReplayFrame<P>>::empty(),
        });
    }
    let mut rest = trace;
    let mut k: usize = 0;
    while rest.len() > 0
        invariant
            k <= entries.len(),
            entries.len() == count,
            rest@ == entries.subrange(k as int, entries.len() as int),
            frames@ == frames_with_trace(start_frames, entries.take(k as int)),
            built@ == diagnostics_with_trace(start_diagnostics, entries.take(k as int)),
        decreases rest@.len(),
    {
        let e = rest.remove(0);
        proof {
            assert(e == entries[k as int]);
            assert(entries.take(k + 1).drop_last() =~= entries.take(k as int));
            assert(entries.take(k + 1).last() == entries[k as int]);
        }
        built.append(e.iteration, e.metrics, e.family, &e.values);
        upsert_replay_frame_in(&mut frames, ReplayFrame { iteration: e.iteration, payload: e.payload });
        proof {
            assert(rest@ =~= entries.subrange(k + 1, entries.len() as int));
        }
        k = k + 1;
    }
    proof {
        assert(entries.take(k as int) =~= entries);
    }
    if record_result {
        built.append(result.iteration, result.metrics, result.family, &result.values);
    }
    upsert_replay_frame_in(&mut frames, ReplayFrame { iteration: result.iteration, payload: result.payload });
    *diagnostics = built;
    install_frames(replay, frames)
}

/// Applies a finished spline run in one step: fresh diagnostics and frames are built from
/// the initial curve (as iteration 0, when known; it has no metrics), every trace entry in
/// order and the result, they replace the old ones, and the replay is positioned for the
/// run. Returns the selected frame's position.
pub fn complete_spline_fit<M: Copy, V: Copy, P, T>(
    replay: &mut ReplayState<P, T>,
    diagnostics: &mut IterationDiagnostics<M, V>,
    initial: Option<P>,
    trace: Vec<SplineTraceEntry<M, V, P>>,
    result: SplineTraceEntry<M, V, P>,
) -> (selected: Option<usize>)
    ensures
        final(diagnostics)@ == spline_completion_diagnostics(trace@, result),
        positioned_after_completion(
            *final(replay),
            spline_completion_frames(initial, trace@, result),
            old(replay).autoplay_on_fit,
            selected,
        ),
{
    let ghost entries = trace@;
    let count = trace.len();
    let ghost first = initial;
    let mut built: IterationDiagnostics<M, V> = IterationDiagnostics::new();
    let mut frames: Vec<ReplayFrame<P>> = Vec::new();
    match initial {
        Some(curve) => {
            upsert_replay_frame_in(&mut frames, ReplayFrame { iteration: 0, payload: curve });
        },
        None => {},
    }
    let ghost start_frames = frames@;
    proof {
        assert(start_frames =~= match first {
            Some(curve) => seq![ReplayFrame { iteration: 0, payload: curve }],
            None => Seq::<ReplayFrame<P>>::empty(),
        });
    }
    let mut rest = trace;
    let mut k: usize = 0;
    while rest.len() > 0
        invariant
            k <= entries.len(),
            entries.len() == count,
            rest@ == entries.subrange(k as int, entries.len() as int),
            frames@ == frames_with_spline_trace(start_frames, entries.take(k as int)),
            built@ == diagnostics_with_spline_trace(cleared_view::<M, V>(), entries.take(k as int)),
        decreases rest@.len(),
    {
        let e = rest.remove(0);
        proof {
            assert(e == entries[k as int]);
            assert(entries.take(k + 1).drop_last() =~= entries.take(k as int));
            assert(entries.take(k + 1).last() == entries[k as int]);
        }
        built.append_spline(e.iteration, e.metrics, &e.knot_y);
        upsert_replay_frame_in(&mut frames, ReplayFrame { iteration: e.iteration, payload: e.payload });
        proof {
            assert(rest@ =~= entries.subrange(k + 1, entries.len() as int));
        }
        k = k + 1;
    }
    proof {
        assert(entries.take(k as int) =~= entries);
    }
    built.append_spline(result.iteration, result.metrics, &result.knot_y);
    upsert_replay_frame_in(&mut frames, ReplayFrame { iteration: result.iteration, payload: result.payload });
    *diagnostics = built;
    install_frames(replay, frames)
}

/// After a finished run is applied, its result is the last frame, so a replay stopped on
/// the last frame shows the result's iteration.
pub proof fn lemma_result_is_the_last_frame<M, V, P>(
    initial: Option<TraceEntry<M, V, P>>,
    trace: Seq<TraceEntry<M, V, P>>,
    result: TraceEntry<M, V, P>,
)
    ensures
        parametric_completion_frames(initial, trace, result).len() > 0,
        parametric_completion_frames(initial, trace, result).last().iteration == result.iteration,
{
}


/// Whether a session went through the poll of a finished run: the run ended and the worker
/// is detached; a kept run shows `FitCompleted`, a discarded one `FitStopped` where it
/// said it was running or stopping.
pub open spec fn finished_poll(old_session: FitSession, new_session: FitSession) -> bool {
    &&& !new_session.fit_in_progress
    &&& !new_session.worker_attached
    &&& !new_session.discard_updates
    &&& new_session.status == if old_session.discard_updates {
        spec_stopped_if_fitting(old_session.status)
    } else {
        Some(StatusMessage::FitCompleted)
    }
}

/// Receives a finished parametric run in one poll. Unless the run's updates are
/// discarded, the whole buffered trace is applied (`complete_parametric_fit`), the
/// finished result is stored and any spline result dropped; a discarded run leaves the
/// replay, the diagnostics and the results as they were. Returns the selected frame.
pub fn receive_finished_parametric_fit<M: Copy, V: Copy, P, T, R, S>(
    session: &mut FitSession,
    replay: &mut ReplayState<P, T>,
    diagnostics: &mut IterationDiagnostics<M, V>,
    fit_result: &mut Option<R>,
    spline_result: &mut Option<S>,
    finished: R,
    initial: Option<TraceEntry<M, V, P>>,
    trace: Vec<TraceEntry<M, V, P>>,
    result: TraceEntry<M, V, P>,
    record_result: bool,
) -> (selected: Option<usize>)
    requires
        old(session).worker_attached,
    ensures
        finished_poll(*old(session), *final(session)),
        !old(session).discard_updates ==> {
            &&& final(diagnostics)@ == parametric_completion_diagnostics(initial, trace@, result, record_result)
            &&& positioned_after_completion(
                *final(replay),
                parametric_completion_frames(initial, trace@, result),
                old(replay).autoplay_on_fit,
                selected,
            )
            &&& *final(fit_result) == Some(finished)
            &&& *final(spline_result) is None
        },
        old(session).discard_updates ==> {
            &&& selected is None
            &&& final(diagnostics)@ == old(diagnostics)@
            &&& *final(replay) == *old(replay)
            &&& *final(fit_result) == *old(fit_result)
            &&& *final(spline_result) == *old(spline_result)
        },
{
    let action = session.poll_fit_worker(FitWorkerEvent::Finished);
    if action == FitPollAction::ApplyParametric {
        let selected = complete_parametric_fit(replay, diagnostics, initial, trace, result, record_result);
        *fit_result = Some(finished);
        *spline_result = None;
        selected
    } else {
        None
    }
}

/// Receives a finished spline run in one poll. Unless the run's updates are discarded,
/// the whole buffered trace is applied (`complete_spline_fit`), the finished spline result
/// is stored and any parametric result dropped; a discarded run leaves the replay, the
/// diagnostics and the results as they were. Returns the selected frame.
pub fn receive_finished_spline_fit<M: Copy, V: Copy, P, T, R, S>(
    session: &mut FitSession,
    replay: &mut ReplayState<P, T>,
    diagnostics: &mut IterationDiagnostics<M, V>,
    fit_result: &mut Option<R>,
    spline_result: &mut Option<S>,
    finished: S,
    initial: Option<P>,
    trace: Vec<SplineTraceEntry<M, V, P>>,
    result: SplineTraceEntry<M, V, P>,
) -> (selected: Option<usize>)
    requires
        old(session).worker_attached,
    ensures
        finished_poll(*old(session), *final(session)),
        !old(session).discard_updates ==> {
            &&& final(diagnostics)@ == spline_completion_diagnostics(trace@, result)
            &&& positioned_after_completion(
                *final(replay),
                spline_completion_frames(initial, trace@, result),
                old(replay).autoplay_on_fit,
                selected,
            )
            &&& *final(spline_result) == Some(finished)
            &&& *final(fit_result) is None
        },
        old(session).discard_updates ==> {
            &&& selected is None
            &&& final(diagnostics)@ == old(diagnostics)@
            &&& *final(replay) == *old(replay)
            &&& *final(fit_result) == *old(fit_result)
            &&& *final(spline_result) == *old(spline_result)
        },
{
    let action = session.poll_fit_worker(FitWorkerEvent::SplineFinished);
    if action == FitPollAction::ApplySpline {
        let selected = complete_spline_fit(replay, diagnostics, initial, trace, result);
        *spline_result = Some(finished);
        *fit_result = None;
        selected
    } else {
        None
    }
}

/// Clears what a run left to show: the replay frames and selection (autoplay stops), the
/// diagnostics series and both results. The caller does this on `ClearOutputs`.
pub fn clear_fit_outputs<M: Copy, V: Copy, P, T, R, S>(
    replay: &mut ReplayState<P, T>,
    diagnostics: &mut IterationDiagnostics<M, V>,
    fit_result: &mut Option<R>,
    spline_result: &mut Option<S>,
)
    ensures
        final(replay).frames@.len() == 0,
        final(replay).selected_index is None,
        !final(replay).autoplay,
        final(replay).last_step_at is None,
        final(replay).autoplay_on_fit == old(replay).autoplay_on_fit,
        final(diagnostics)@ == cleared_view::<M, V>(),
        *final(fit_result) is None,
        *final(spline_result) is None,
{
    replay.clear_replay_state();
    diagnostics.clear();
    *fit_result = None;
    *spline_result = None;
}

} // verus!
