use curve_fit::replay::{upsert_replay_frame_in, ReplayFrame, ReplayState, ReplayTick};

fn state_with(iterations: &[u64]) -> ReplayState<&'static str, u32> {
    let mut state = ReplayState::new();
    for &iteration in iterations {
        upsert_replay_frame_in(&mut state.frames, ReplayFrame { iteration, payload: "frame" });
    }
    state
}

#[test]
fn replay_upsert_replaces_duplicate_iteration() {
    let mut frames = Vec::new();
    upsert_replay_frame_in(&mut frames, ReplayFrame { iteration: 3, payload: (1.0, 0.0) });
    upsert_replay_frame_in(&mut frames, ReplayFrame { iteration: 3, payload: (2.0, -1.0) });

    assert_eq!(frames.len(), 1);
    assert_eq!(frames[0].iteration, 3);
    assert_eq!(frames[0].payload, (2.0, -1.0));
}

#[test]
fn replay_selected_iteration_matches_selected_replay_frame() {
    let mut state = state_with(&[2, 9]);

    state.set_replay_selected_index(1);

    assert_eq!(state.replay_selected_iteration(), Some(9));
}

#[test]
fn replay_selected_iteration_returns_none_without_selection() {
    let state = state_with(&[2, 9]);

    assert_eq!(state.replay_selected_iteration(), None);
}

#[test]
fn replay_start_from_beginning_selects_first_frame_and_enables_autoplay() {
    let mut state = state_with(&[1, 2]);

    assert_eq!(state.start_replay_from_beginning(), Some(0));

    assert_eq!(state.selected_index, Some(0));
    assert!(state.autoplay);
    assert_eq!(state.replay_selected_iteration(), Some(1));
}

#[test]
fn replay_start_from_beginning_respects_auto_replay_toggle() {
    let mut state = state_with(&[1, 2]);
    state.autoplay_on_fit = false;

    state.start_replay_from_beginning();

    assert_eq!(state.selected_index, Some(0));
    assert!(!state.autoplay);
    assert_eq!(state.replay_selected_iteration(), Some(1));
}

#[test]
fn replay_finalize_after_fit_completion_uses_last_frame_when_auto_replay_is_disabled() {
    let mut state = state_with(&[1, 9]);
    state.autoplay_on_fit = false;

    state.finalize_replay_after_fit_completion();

    assert_eq!(state.selected_index, Some(1));
    assert_eq!(state.replay_selected_iteration(), Some(9));
    assert!(!state.autoplay);
}

#[test]
fn replay_finalize_after_fit_stopped_uses_last_frame_when_auto_replay_is_disabled() {
    let mut state = state_with(&[0, 5]);
    state.autoplay_on_fit = false;
    state.autoplay = true;
    state.set_replay_selected_index(0);

    state.finalize_replay_after_fit_stopped();

    assert_eq!(state.selected_index, Some(1));
    assert_eq!(state.replay_selected_iteration(), Some(5));
    assert!(!state.autoplay);
}

#[test]
fn replay_select_nearest_iteration_updates_parametric_preview() {
    let mut state = state_with(&[2, 10]);

    assert_eq!(state.select_nearest_replay_iteration(8), Some(1));

    assert_eq!(state.replay_selected_iteration(), Some(10));
}

#[test]
fn replay_select_nearest_iteration_updates_spline_preview() {
    let mut state: ReplayState<Vec<(f64, f64)>, u32> = ReplayState::new();
    upsert_replay_frame_in(&mut state.frames, ReplayFrame { iteration: 1, payload: vec![(0.0, 0.0), (1.0, 1.0)] });
    upsert_replay_frame_in(&mut state.frames, ReplayFrame { iteration: 5, payload: vec![(0.0, 1.0), (1.0, 2.0)] });

    let selected = state.select_nearest_replay_iteration(4);

    assert_eq!(state.replay_selected_iteration(), Some(5));
    let index = selected.expect("a frame must be selected");
    let spline_curve = &state.frames[index].payload;
    assert_eq!(spline_curve.len(), 2);
    assert_eq!(spline_curve[0], (0.0, 1.0));
    assert_eq!(spline_curve[1], (1.0, 2.0));
}

#[test]
fn nearest_frame_prefers_the_earlier_frame_on_a_tie() {
    let state = state_with(&[2, 6, 10]);
    assert_eq!(state.nearest_replay_frame_index(4), Some(0));
    assert_eq!(state.nearest_replay_frame_index(5), Some(1));
    assert_eq!(state.nearest_replay_frame_index(6), Some(1));
    assert_eq!(state.nearest_replay_frame_index(0), Some(0));
    assert_eq!(state.nearest_replay_frame_index(99), Some(2));
    assert_eq!(state_with(&[]).nearest_replay_frame_index(3), None);
    assert_eq!(state.replay_iteration_bounds(), Some((2, 10)));
}

#[test]
fn autoplay_steps_through_frames_and_stops_at_the_end() {
    let mut state = state_with(&[0, 1, 2]);
    state.start_replay_from_beginning();
    assert_eq!(state.tick_replay(true, true, 7), ReplayTick::Idle);
    assert_eq!(state.tick_replay(false, false, 7), ReplayTick::Waiting);
    assert_eq!(state.tick_replay(false, true, 8), ReplayTick::Stepped { index: 1, more: true });
    assert_eq!(state.last_step_at, Some(8));
    assert_eq!(state.tick_replay(false, true, 9), ReplayTick::Stepped { index: 2, more: false });
    assert!(!state.autoplay);
    assert_eq!(state.tick_replay(false, true, 10), ReplayTick::Idle);
}

#[test]
fn toggling_autoplay_restarts_from_the_last_frame() {
    let mut state = state_with(&[0, 1, 2]);
    state.set_replay_selected_index(2);
    assert_eq!(state.toggle_replay_autoplay(), Some(0));
    assert!(state.autoplay);
    assert_eq!(state.toggle_replay_autoplay(), None);
    assert!(!state.autoplay);
    let mut single = state_with(&[4]);
    assert_eq!(single.toggle_replay_autoplay(), None);
    assert!(!single.autoplay);
    single.clear_replay_state();
    assert!(single.frames.is_empty());
}

#[test]
fn recording_increasing_iterations_keeps_frames_sorted() {
    let state = state_with(&[0, 1, 1, 4, 9, 9, 20]);
    let iterations: Vec<u64> = state.frames.iter().map(|frame| frame.iteration).collect();
    assert_eq!(iterations, vec![0, 1, 4, 9, 20]);
    assert_eq!(state.nearest_replay_frame_index(6), Some(2));
    assert_eq!(state.nearest_replay_frame_index(7), Some(3));
    assert_eq!(state.nearest_replay_frame_index(100), Some(4));
}
