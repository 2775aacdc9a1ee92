use curve_fit::fit_control::{auto_spline_samples, sync_spline_initial_knot_y_inputs, AutoRefitState};
use curve_fit::history::{PointsHistory, POINTS_HISTORY_LIMIT};
use curve_fit::layers::{PointLayerId, PointLayersState};

fn write(layers: &mut PointLayersState, text: &str) {
    let index = layers.selected_index();
    layers.layers[index].points.write_points_text(text.to_string(), false);
}

#[test]
fn default_app_has_one_visible_selected_layer() {
    let layers = PointLayersState::new();

    assert_eq!(layers.layers.len(), 1);
    assert_eq!(layers.selected_index(), 0);
    assert_eq!(layers.layers[0].name, "Layer 1");
    assert!(layers.layers[0].visible);
    assert!(layers.layers[0].points.text.is_empty());
}

#[test]
fn creating_layer_selects_it_and_deleting_last_layer_resets_default() {
    let mut layers = PointLayersState::new();

    layers.create_empty_layer();
    assert_eq!(layers.layers.len(), 2);
    assert_eq!(layers.selected_index(), 1);
    assert_eq!(layers.layers[1].name, "Layer 2");

    layers.delete_selected_layer();
    assert_eq!(layers.layers.len(), 1);
    assert_eq!(layers.layers[layers.selected_index()].name, "Layer 1");

    let index = layers.selected_index();
    layers.layers[index].name = "Custom".to_string();
    layers.layers[index].visible = false;
    write(&mut layers, "0.00000000 1.00000000\n1.00000000 2.00000000\n");
    layers.delete_selected_layer();

    assert_eq!(layers.layers.len(), 1);
    let selected = &layers.layers[layers.selected_index()];
    assert_eq!(selected.name, "Layer 1");
    assert!(selected.visible);
    assert!(selected.points.text.is_empty());
}

#[test]
fn duplicate_layer_copies_points_and_selects_copy() {
    let mut layers = PointLayersState::new();
    layers.layers[0].name = "Source".to_string();
    write(&mut layers, "0.00000000 1.00000000\n1.00000000 2.00000000\n");

    layers.duplicate_selected_layer();

    assert_eq!(layers.layers.len(), 2);
    assert_eq!(layers.selected_index(), 1);
    assert_eq!(layers.layers[1].name, "Source copy");
    assert_eq!(
        layers.layers[1].points.text,
        "0.00000000 1.00000000\n1.00000000 2.00000000\n"
    );
    assert_ne!(layers.layers[0].id, layers.layers[1].id);
}

#[test]
fn show_only_layer_makes_target_visible_and_hides_others() {
    let mut layers = PointLayersState::new();
    let first_id = layers.selected_id;
    layers.create_empty_layer();
    let second_id = layers.selected_id;
    layers.create_empty_layer();
    let third_id = layers.selected_id;
    layers.layers[1].visible = false;

    assert!(layers.show_only(second_id));

    assert!(!layers.layers[0].visible);
    assert!(layers.layers[1].visible);
    assert!(!layers.layers[2].visible);
    assert!(!layers.show_only(second_id));
    assert!(layers.show_only(first_id));
    assert!(layers.layers[0].visible);
    assert!(!layers.layers[1].visible);
    assert!(!layers.layers[2].visible);
    assert!(layers.show_only(third_id));
}

#[test]
fn empty_layer_name_uses_stable_display_name_in_errors() {
    let mut layers = PointLayersState::new();
    layers.layers[0].name = "   ".to_string();
    assert_eq!(layers.layers[0].points.text, "");
    assert_eq!(layers.layers[0].display_name(), "Unnamed layer");
    layers.layers[0].name = "  Bad input ".to_string();
    assert_eq!(layers.layers[0].display_name(), "Bad input");
}

#[test]
fn layers_cycle_palette_colors_and_ignore_unknown_ids() {
    let mut layers = PointLayersState::new();
    for _ in 0..8 {
        layers.create_empty_layer();
    }
    assert_eq!(layers.layers[8].color_index, 0);
    assert_eq!(layers.layers[8].name, "Layer 9");
    let before = layers.selected_id;
    layers.select(PointLayerId(999));
    assert_eq!(layers.selected_id, before);
    assert!(!layers.show_only(PointLayerId(999)));
    layers.select(PointLayerId::first());
    assert_eq!(layers.selected_index(), 0);
    layers.delete_selected_layer();
    assert_eq!(layers.layers[layers.selected_index()].name, "Layer 2");
}

#[test]
fn undo_restores_text_and_redo_reapplies_it() {
    let mut history = PointsHistory::new();
    history.write_points_text("1 2\n".to_string(), true);
    history.write_points_text("3 4\n".to_string(), true);
    assert_eq!(history.undo_stack, vec!["".to_string(), "1 2\n".to_string()]);

    assert!(history.undo_points_edit());
    assert_eq!(history.text, "1 2\n");
    assert_eq!(history.redo_stack, vec!["3 4\n".to_string()]);

    assert!(history.redo_points_edit());
    assert_eq!(history.text, "3 4\n");
    assert!(history.redo_stack.is_empty());
    assert!(!history.redo_points_edit());
}

#[test]
fn new_edit_clears_redo_and_equal_snapshots_are_not_repeated() {
    let mut history = PointsHistory::new();
    history.write_points_text("a".to_string(), true);
    history.undo_points_edit();
    assert_eq!(history.redo_stack.len(), 1);
    history.write_points_text("b".to_string(), true);
    assert!(history.redo_stack.is_empty());
    history.push_points_undo_snapshot("b".to_string());
    history.push_points_undo_snapshot("b".to_string());
    assert_eq!(history.undo_stack, vec!["".to_string(), "b".to_string()]);
    assert!(!history.write_points_text("b".to_string(), true));
    assert!(history.clear_points_text(true));
    assert_eq!(history.text, "");
    assert!(!history.clear_points_text(true));
}

#[test]
fn history_keeps_the_newest_snapshots_only() {
    let mut history = PointsHistory::new();
    for index in 0..(POINTS_HISTORY_LIMIT + 10) {
        history.push_points_undo_snapshot(index.to_string());
    }
    assert_eq!(history.undo_stack.len(), POINTS_HISTORY_LIMIT);
    assert_eq!(history.undo_stack[0], "10");
    assert_eq!(history.undo_stack.last().map(String::as_str), Some("265"));
}

#[test]
fn auto_refit_first_snapshot_only_initializes_baseline() {
    let mut state = AutoRefitState::new();

    assert!(state.last_snapshot.is_none());
    let run = state.track_right_panel_fit_changes(11, true, false);
    assert!(state.last_snapshot.is_some());
    assert!(!run);
    assert!(!state.pending_rerun);
}

#[test]
fn auto_refit_runs_fit_when_right_panel_settings_change_in_idle() {
    let mut state = AutoRefitState::new();
    state.track_right_panel_fit_changes(11, true, false);

    assert!(state.track_right_panel_fit_changes(12, true, false));
}

#[test]
fn auto_refit_queues_rerun_when_settings_change_during_fit() {
    let mut state = AutoRefitState::new();
    state.track_right_panel_fit_changes(11, true, false);

    assert!(!state.track_right_panel_fit_changes(12, true, true));
    assert!(state.pending_rerun);
}

#[test]
fn auto_refit_pending_rerun_starts_after_fit_transitions_to_idle() {
    let mut state = AutoRefitState::new();
    state.track_right_panel_fit_changes(11, true, false);
    state.track_right_panel_fit_changes(12, true, true);
    assert!(state.pending_rerun);

    assert!(!state.maybe_run_pending_auto_refit(true, true));
    assert!(state.pending_rerun);

    assert!(state.maybe_run_pending_auto_refit(true, false));
    assert!(!state.pending_rerun);
}

#[test]
fn disabling_auto_refit_clears_pending_rerun_without_starting_fit() {
    let mut state = AutoRefitState { last_snapshot: None, pending_rerun: true };

    let run = state.maybe_run_pending_auto_refit(false, false);

    assert!(!state.pending_rerun);
    assert!(!run);
}

#[test]
fn disabled_auto_refit_only_remembers_changes() {
    let mut state = AutoRefitState::new();
    state.track_right_panel_fit_changes(1, false, false);
    assert!(!state.track_right_panel_fit_changes(2, false, false));
    assert_eq!(state.last_snapshot, Some(2));
    assert!(!state.track_right_panel_fit_changes(2, true, false));
}

#[test]
fn spline_sampling_scales_with_knots_and_points() {
    assert_eq!(auto_spline_samples(0, 0), 80);
    assert_eq!(auto_spline_samples(10, 5), 150);
    assert_eq!(auto_spline_samples(100, 5), 300);
    assert_eq!(auto_spline_samples(10_000, 5), 2000);
    assert_eq!(auto_spline_samples(usize::MAX, usize::MAX), 2000);
}

#[test]
fn knot_inputs_are_padded_or_cut() {
    let mut inputs = vec!["1.5".to_string()];
    sync_spline_initial_knot_y_inputs(&mut inputs, 3);
    assert_eq!(inputs, vec!["1.5".to_string(), "0.0".to_string(), "0.0".to_string()]);
    sync_spline_initial_knot_y_inputs(&mut inputs, 1);
    assert_eq!(inputs, vec!["1.5".to_string()]);
}

#[test]
fn run_fit_clears_pending_auto_refit_rerun_flag() {
    let mut state = AutoRefitState { last_snapshot: Some(1), pending_rerun: true };

    state.record_fit_start(5);

    assert!(!state.pending_rerun);
    assert_eq!(state.last_snapshot, Some(5));
}
