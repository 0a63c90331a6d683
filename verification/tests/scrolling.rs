//! Smooth scrolling of one terminal.

use std::collections::BTreeMap;
use std::sync::Arc;
use water_workspace::ids::PaneId;
use water_workspace::ids::TerminalId;
use water_workspace::mouse::terminal_scroll_input_kind;
use water_workspace::mouse::TerminalMousePosition;
use water_workspace::mouse::TerminalScrollInputKind;
use water_workspace::mouse::TouchPhase;
use water_workspace::offset::RowOffset;
use water_workspace::scroll::can_be_painted;
use water_workspace::scroll::reconcile_local_viewport_snapshot;
use water_workspace::scroll::reconcile_visual_scroll;
use water_workspace::scroll::record_latest_viewport_request;
use water_workspace::scroll::terminal_prepared_source_rows;
use water_workspace::scroll::terminal_scroll_offset_for_snapshot;
use water_workspace::scroll::terminal_selection_endpoint_at;
use water_workspace::scroll::terminal_source_row_at;
use water_workspace::scroll::terminal_visible_source_rows;
use water_workspace::scroll::ScrollStep;
use water_workspace::scroll::TerminalScrollState;
use water_workspace::scroll::PREPARED_ROW_LOOKAHEAD;
use water_workspace::selection::TerminalSelectionSide;
use water_workspace::terminal::TerminalCell;
use water_workspace::terminal::TerminalSize;
use water_workspace::terminal::TerminalSnapshot;

fn measured(rows: f32) -> RowOffset {
    RowOffset::Measured(rows.to_bits())
}

fn rows_of(offset: RowOffset) -> f32 {
    match offset {
        RowOffset::Rows(rows) => rows as f32,
        RowOffset::Measured(bits) => f32::from_bits(bits),
    }
}

/// What a wheel movement leads to from a state.
fn step(state: &TerminalScrollState, delta: f32) -> ScrollStep {
    let usable = delta.is_finite() && delta != 0.0;
    let delta = delta.clamp(-100.0, 100.0);
    ScrollStep {
        usable,
        from_current: measured((rows_of(state.visual_unacked_rows) + delta).clamp(-101.0, 101.0)),
        from_rest: measured(delta),
    }
}

fn accumulate(state: &mut TerminalScrollState, delta: f32) -> (Option<i64>, bool) {
    let step = step(state, delta);
    state.accumulate(&step)
}

fn accumulate_with_boundaries(
    state: &mut TerminalScrollState,
    delta: f32,
    at_history_start: bool,
    at_live_bottom: bool,
) -> (Option<i64>, bool) {
    let step = step(state, delta);
    state.accumulate_with_boundaries(&step, at_history_start, at_live_bottom)
}

fn rebased(state: &TerminalScrollState, snapshot: &TerminalSnapshot) -> RowOffset {
    let applied = snapshot.viewport_position.saturating_sub(state.observed_viewport_position);
    measured(rows_of(state.visual_unacked_rows) - applied as f32)
}

fn reconcile(state: &mut TerminalScrollState, snapshot: &TerminalSnapshot) {
    let rebased = rebased(state, snapshot);
    reconcile_visual_scroll(state, snapshot, rebased);
}

fn position(state: &TerminalScrollState) -> f32 {
    state.observed_viewport_position as f32 + rows_of(state.visual_unacked_rows)
}

fn blank_row(columns: usize) -> Arc<Vec<TerminalCell>> {
    Arc::new(vec![TerminalCell::blank(); columns])
}

#[test]
fn fractional_scroll_repaints_without_requesting_a_whole_row() {
    let mut state = TerminalScrollState::new(10);
    assert_eq!(accumulate(&mut state, 0.75), (None, true));
    assert!((rows_of(state.visual_unacked_rows) - 0.75).abs() < f32::EPSILON);
    assert_eq!(state.requested_viewport_position, 10);
}

#[test]
fn fractional_scroll_continues_while_a_worker_request_is_pending() {
    let mut state = TerminalScrollState::new(10);
    assert_eq!(accumulate(&mut state, 0.75), (None, true));
    assert_eq!(accumulate(&mut state, 0.5), (Some(11), true));
    assert!((rows_of(state.visual_unacked_rows) - 1.25).abs() < f32::EPSILON);
    assert_eq!(state.requested_viewport_position, 11);
}

#[test]
fn snapshot_ack_rebases_without_moving_the_visual_position() {
    let mut state = TerminalScrollState::new(10);
    assert_eq!(accumulate(&mut state, 1.25), (Some(11), true));
    let before = position(&state);

    let mut snapshot = TerminalSnapshot::empty(TerminalId::new(1), TerminalSize::new(8, 4));
    snapshot.viewport_position = 11;
    snapshot.rows_before.push(blank_row(8));
    snapshot.rows_after.push(blank_row(8));
    reconcile(&mut state, &snapshot);

    let after = position(&state);
    assert!((rows_of(state.visual_unacked_rows) - 0.25).abs() < f32::EPSILON);
    assert!((before - after).abs() < f32::EPSILON);
}

#[test]
fn local_viewport_reconciliation_allows_scrolling_past_first_batch() {
    let terminal_id = TerminalId::new(1);
    let mut states = BTreeMap::new();
    let mut state = TerminalScrollState::new(0);
    assert_eq!(accumulate(&mut state, 100.0), (Some(100), true));

    let previous = TerminalSnapshot::empty(terminal_id, TerminalSize::new(8, 4));
    let mut next = previous.clone();
    next.viewport_position = 100;
    let mut selection = None;
    let rebased = rebased(&state, &next);
    states.insert(terminal_id.raw, state);
    reconcile_local_viewport_snapshot(
        &mut selection,
        &mut states,
        terminal_id,
        &previous,
        &next,
        rebased,
    );

    let state = states.get_mut(&terminal_id.raw).unwrap();
    assert_eq!(state.observed_viewport_position, 100);
    assert_eq!(rows_of(state.visual_unacked_rows), 0.0);
    assert_eq!(accumulate(state, 100.0), (Some(200), true));
}

#[test]
fn reversing_before_ack_corrects_the_absolute_visual_target() {
    let mut state = TerminalScrollState::new(10);
    assert_eq!(accumulate(&mut state, 1.4), (Some(11), true));
    assert_eq!(accumulate(&mut state, -0.9), (Some(10), true));
    assert!((rows_of(state.visual_unacked_rows) - 0.5).abs() < f32::EPSILON);
    assert_eq!(state.requested_viewport_position, 10);
}

#[test]
fn live_bottom_discards_hidden_scroll_debt_before_reversing() {
    let mut state = TerminalScrollState::new(10);
    assert_eq!(accumulate(&mut state, -20.0), (Some(-10), true));

    // The live bottom is already visible, so the first movement the other way
    // shows at once instead of paying back twenty rows.
    assert_eq!(accumulate_with_boundaries(&mut state, 0.5, false, true), (None, true));
    assert!((rows_of(state.visual_unacked_rows) - 0.5).abs() < f32::EPSILON);
    assert_eq!(state.requested_viewport_position, 10);
}

#[test]
fn history_start_discards_hidden_scroll_debt_before_reversing() {
    let mut state = TerminalScrollState::new(10);
    assert_eq!(accumulate(&mut state, 20.0), (Some(30), true));

    assert_eq!(accumulate_with_boundaries(&mut state, -0.5, true, false), (None, true));
    assert!((rows_of(state.visual_unacked_rows) + 0.5).abs() < f32::EPSILON);
    assert_eq!(state.requested_viewport_position, 10);
}

#[test]
fn deltas_further_into_a_known_boundary_are_not_accumulated() {
    let mut bottom = TerminalScrollState::new(0);
    assert_eq!(accumulate_with_boundaries(&mut bottom, -100.0, false, true), (None, false));
    assert_eq!(rows_of(bottom.visual_unacked_rows), 0.0);

    let mut top = TerminalScrollState::new(100);
    assert_eq!(accumulate_with_boundaries(&mut top, 100.0, true, false), (None, false));
    assert_eq!(rows_of(top.visual_unacked_rows), 0.0);
}

#[test]
fn touch_phase_distinguishes_trackpad_gestures_from_mouse_pixels() {
    assert_eq!(
        terminal_scroll_input_kind(true, TouchPhase::Started, false),
        TerminalScrollInputKind::TrackpadGesture
    );
    assert_eq!(
        terminal_scroll_input_kind(true, TouchPhase::Moved, true),
        TerminalScrollInputKind::TrackpadGesture
    );
    assert_eq!(
        terminal_scroll_input_kind(true, TouchPhase::Moved, false),
        TerminalScrollInputKind::MouseWheel
    );
    assert_eq!(
        terminal_scroll_input_kind(false, TouchPhase::Started, true),
        TerminalScrollInputKind::MouseWheel
    );
}

#[test]
fn ui_viewport_requests_are_latest_wins_within_a_frame() {
    let terminal_id = TerminalId::new(1);
    let pane_id = PaneId::new(2);
    let mut pending = BTreeMap::new();
    for target in 1..=20 {
        record_latest_viewport_request(&mut pending, terminal_id, pane_id, target);
    }
    assert_eq!(pending.len(), 1);
    assert_eq!(pending[&terminal_id.raw], (pane_id, 20));
}

#[test]
fn delayed_worker_ack_never_freezes_or_moves_the_visual_viewport_backwards() {
    let mut state = TerminalScrollState::new(10);
    let mut last_visual_position = 10.0;

    // All movements of the gesture arrive before the first answer.
    for (_at_ms, delta) in [
        (0_u64, 0.21_f32),
        (5, 0.32),
        (11, 0.41),
        (19, 0.37),
        (28, 0.48),
    ] {
        let (_, repaint) = accumulate(&mut state, delta);
        let visual_position = position(&state);
        assert!(repaint);
        assert!(visual_position > last_visual_position);
        last_visual_position = visual_position;
    }
    assert!((last_visual_position - 11.79).abs() < 1e-5);

    let mut first_ack = TerminalSnapshot::empty(TerminalId::new(1), TerminalSize::new(8, 4));
    first_ack.viewport_position = 11;
    first_ack.rows_before = (0..8).map(|_| blank_row(8)).collect();
    first_ack.rows_after = (0..8).map(|_| blank_row(8)).collect();
    reconcile(&mut state, &first_ack);
    let after_first_ack = position(&state);
    assert!((after_first_ack - last_visual_position).abs() < f32::EPSILON);

    for delta in [0.33_f32, 0.44] {
        let (_, repaint) = accumulate(&mut state, delta);
        let visual_position = position(&state);
        assert!(repaint);
        assert!(visual_position > last_visual_position);
        last_visual_position = visual_position;
    }

    let mut final_ack = first_ack;
    final_ack.viewport_position = 12;
    reconcile(&mut state, &final_ack);
    let final_visual_position = position(&state);
    let input_total: f32 = [0.21, 0.32, 0.41, 0.37, 0.48, 0.33, 0.44].into_iter().sum();
    assert!((final_visual_position - last_visual_position).abs() < f32::EPSILON);
    assert!((final_visual_position - (10.0 + input_total)).abs() < 1e-5);
}

#[test]
fn multi_row_visual_offsets_select_only_visible_source_rows() {
    assert_eq!(
        terminal_visible_source_rows(4, measured(1.25)).collect::<Vec<_>>(),
        vec![-2, -1, 0, 1, 2]
    );
    assert_eq!(
        terminal_visible_source_rows(4, measured(-3.4)).collect::<Vec<_>>(),
        vec![3, 4, 5, 6, 7]
    );
    assert_eq!(
        terminal_visible_source_rows(4, measured(2.0)).collect::<Vec<_>>(),
        vec![-2, -1, 0, 1]
    );
}

#[test]
fn prepared_row_band_stays_bounded_inside_the_raw_reserve() {
    let visible = terminal_visible_source_rows(24, measured(12.4));
    let prepared = terminal_prepared_source_rows(visible.clone(), -32, 24 + 32);

    assert_eq!(prepared.start, visible.start - PREPARED_ROW_LOOKAHEAD);
    assert_eq!(prepared.end, visible.end + PREPARED_ROW_LOOKAHEAD);
    assert_eq!(prepared.len(), visible.len() + 2 * PREPARED_ROW_LOOKAHEAD as usize);
    assert!(prepared.len() < 24 + 2 * 32);
}

#[test]
fn paint_downward_offset_is_bounded_by_the_semantic_live_bottom() {
    let terminal_id = TerminalId::new(9);
    let mut snapshot = TerminalSnapshot::empty(terminal_id, TerminalSize::new(8, 5));
    snapshot.viewport_position = 2;
    snapshot.display_offset = 2;
    // The distance from the bottom of the viewport to the newest row at hand.
    snapshot.last_source_row = 2;
    snapshot.rows_before.push(blank_row(8));
    snapshot.rows_before.push(blank_row(8));
    snapshot.rows_after.push(blank_row(8));
    snapshot.rows_after.push(blank_row(8));

    let clamp = |offset: f32, snapshot: &TerminalSnapshot| {
        rows_of(terminal_scroll_offset_for_snapshot(measured(offset), snapshot))
    };
    let jump = -2.0;
    // The rows at hand reach the live tail: the whole jump is painted.
    assert_eq!(clamp(jump, &snapshot), -2.0);

    // They stop one row short of it: the jump ends at the last of them.
    let short = TerminalSnapshot { last_source_row: 1, viewport_position: 3, ..snapshot.clone() };
    assert_eq!(clamp(-3.0, &short), -1.0);

    // No rows below the screen: the jump still ends at the last row at hand.
    let bottom = TerminalSnapshot {
        last_source_row: 2,
        rows_after: Vec::new(),
        ..snapshot.clone()
    };
    assert_eq!(clamp(jump, &bottom), -2.0);

    // Deep in the history, with rows at hand that stop short of the tail.
    let deep = TerminalSnapshot { last_source_row: 2, viewport_position: 10, ..snapshot.clone() };
    assert_eq!(clamp(-10.0, &deep), -2.0);
    let deep_reached = TerminalSnapshot {
        last_source_row: 4,
        viewport_position: 10,
        ..snapshot.clone()
    };
    assert_eq!(clamp(-10.0, &deep_reached), -2.0);
}

#[test]
fn painted_offset_is_bounded_by_the_rows_above() {
    let mut snapshot = TerminalSnapshot::empty(TerminalId::new(1), TerminalSize::new(8, 5));
    snapshot.rows_before.push(blank_row(8));
    snapshot.rows_before.push(blank_row(8));
    let paint = |offset: f32| {
        rows_of(terminal_scroll_offset_for_snapshot(measured(offset), &snapshot))
    };
    assert_eq!(paint(5.5), 2.0);
    assert_eq!(paint(1.5), 1.5);
    assert_eq!(paint(0.0), 0.0);
}

#[test]
fn the_lead_is_bounded_to_the_fraction() {
    let mut state = TerminalScrollState::new(500);
    accumulate(&mut state, 100.0);
    accumulate(&mut state, 1.5);
    assert_eq!(rows_of(state.visual_unacked_rows), 101.0);
    assert_eq!(state.requested_viewport_position, 601);
    assert_eq!(state.observed_viewport_position, 500);
    for _ in 0..3 {
        accumulate(&mut state, -99.75);
    }
    assert_eq!(rows_of(state.visual_unacked_rows), -101.0);
    assert_eq!(state.requested_viewport_position, 399);
}

#[test]
fn fractions_survive_a_snapshot() {
    let mut state = TerminalScrollState::new(4);
    accumulate(&mut state, 2.5);
    let mut snapshot = TerminalSnapshot::empty(TerminalId::new(1), TerminalSize::new(4, 1));
    snapshot.rows_before.push(snapshot.rows[0].clone());
    snapshot.rows_after.push(snapshot.rows[0].clone());
    snapshot.viewport_position = 7;
    reconcile(&mut state, &snapshot);
    assert_eq!(state.observed_viewport_position, 7);
    assert_eq!(rows_of(state.visual_unacked_rows), -0.5);
    assert_eq!(state.requested_viewport_position, 6);
}

#[test]
fn unusable_movements_change_nothing() {
    for delta in [0.0, f32::NAN, f32::INFINITY] {
        let mut state = TerminalScrollState::new(7);
        let step = ScrollStep {
            usable: delta.is_finite() && delta != 0.0,
            from_current: RowOffset::Rows(0),
            from_rest: RowOffset::Rows(0),
        };
        assert_eq!(state.accumulate(&step), (None, false));
        assert_eq!(state, TerminalScrollState::new(7));
    }
}

#[test]
fn snapshots_at_a_boundary_drop_what_lies_beyond_it() {
    let mut state = TerminalScrollState::new(10);
    assert_eq!(accumulate(&mut state, 3.5), (Some(13), true));
    let mut top = TerminalSnapshot::empty(TerminalId::new(1), TerminalSize::new(8, 4));
    top.viewport_position = 12;
    reconcile(&mut state, &top);
    assert_eq!(state, TerminalScrollState::new(12));
}

#[test]
fn distances_are_read_off_their_bits() {
    for (rows, whole) in [
        (0.0_f32, 0_i64),
        (-0.0, 0),
        (0.99, 0),
        (1.0, 1),
        (-1.75, -1),
        (100.5, 100),
        (16_777_216.0, 16_777_216),
        (1e-40, 0),
    ] {
        let offset = measured(rows);
        assert_eq!(offset.whole_rows(), whole);
        assert_eq!(offset.points_up(), rows > 0.0);
        assert_eq!(offset.points_down(), rows < 0.0);
        assert_eq!(offset.has_fraction_up(), rows > 0.0 && rows.fract() != 0.0);
        assert_eq!(offset.has_fraction_down(), rows < 0.0 && rows.fract() != 0.0);
        assert!(offset.equals(measured(rows)));
    }
    assert!(measured(2.5).is_above(2));
    assert!(!measured(2.0).is_above(2));
    assert!(measured(-2.5).is_below(-2));
    assert!(!measured(-2.0).is_below(-2));
    assert!(measured(3.0).equals(RowOffset::Rows(3)));
    assert!(!measured(3.5).equals(RowOffset::Rows(3)));
    assert!(measured(-0.0).equals(RowOffset::zero()));
}

#[test]
fn pointer_rows_stay_on_the_screen() {
    assert_eq!(terminal_source_row_at(4, measured(0.0), Some(2)), 2);
    assert_eq!(terminal_source_row_at(4, measured(2.5), Some(1)), -1);
    assert_eq!(terminal_source_row_at(4, measured(2.0), Some(1)), -1);
    assert_eq!(terminal_source_row_at(4, measured(0.0), Some(99)), 3);
    assert_eq!(terminal_source_row_at(4, measured(1.0), None), -1);
    assert_eq!(terminal_source_row_at(0, measured(0.0), Some(3)), 0);
}

#[test]
fn endpoints_stay_on_the_row() {
    let snapshot = TerminalSnapshot::empty(TerminalId::new(1), TerminalSize::new(8, 4));
    let mouse = TerminalMousePosition { column: 3, row: 2, side: TerminalSelectionSide::Right };
    let endpoint = terminal_selection_endpoint_at(&snapshot, mouse, 1);
    assert_eq!((endpoint.position.row, endpoint.position.column), (1, 2));
    assert_eq!(endpoint.side, TerminalSelectionSide::Right);
    let beyond = TerminalMousePosition { column: 99, row: 2, side: TerminalSelectionSide::Left };
    assert_eq!(terminal_selection_endpoint_at(&snapshot, beyond, 1).position.column, 7);
}

#[test]
fn grids_lead_to_the_live_bottom() {
    let mut snapshot = TerminalSnapshot::empty(TerminalId::new(1), TerminalSize::new(8, 4));
    assert!(can_be_painted(&snapshot));
    snapshot.last_source_row = -1;
    assert!(!can_be_painted(&snapshot));
    snapshot.rows_before.push(blank_row(8));
    assert!(can_be_painted(&snapshot));
    snapshot.size.lines = 0x7000_0001;
    assert!(!can_be_painted(&snapshot));
}
