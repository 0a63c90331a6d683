//! Smooth scrolling of a terminal.
//!
//! The wheel moves the picture at once, by fractions of a row. The emulator
//! follows by whole rows and answers with snapshots. A scroll state keeps the
//! two apart: where the latest snapshot stands, and how far the picture has
//! moved beyond it.

use crate::arith::clamp_to_i32;
use crate::arith::saturating_add_i32;
use crate::arith::saturating_add_i64;
use crate::arith::saturating_sub_i32;
use crate::ids::PaneId;
use crate::ids::TerminalId;
use crate::mouse::TerminalMousePosition;
use crate::offset::RowOffset;
use crate::selection::shift_selection_for_viewport;
use crate::selection::TerminalCellPosition;
use crate::selection::TerminalSelection;
use crate::selection::TerminalSelectionEndpoint;
use crate::selection::TerminalSelectionSide;
use crate::terminal::TerminalSnapshot;
use core::ops::Range;
use std::collections::BTreeMap;
use vstd::prelude::*;

verus! {

/// How many rows around the visible ones are prepared for painting.
pub const PREPARED_ROW_LOOKAHEAD: i32 = 8;

/// Rows that the picture may run ahead of the emulator.
pub const LARGEST_LEAD: i64 = 101;

/// Keeps wheel movement visually anchored while requests are on their way.
#[derive(Clone, Copy, PartialEq, Eq, Structural, Debug)]
pub struct TerminalScrollState {
    /// Position that the latest snapshot shows.
    pub observed_viewport_position: i64,
    /// Movement that the latest snapshot does not show yet.
    pub visual_unacked_rows: RowOffset,
    /// Latest position asked of the emulator.
    pub requested_viewport_position: i64,
}

/// What a wheel movement leads to, measured outside: the distance of the
/// picture afterwards, counted from where it is and counted from rest.
#[derive(Clone, Copy, PartialEq, Eq, Structural, Debug)]
pub struct ScrollStep {
    /// The movement is a number other than zero.
    pub usable: bool,
    pub from_current: RowOffset,
    pub from_rest: RowOffset,
}

/// A distance that the picture may run ahead of the emulator, in either
/// direction.
pub open spec fn is_lead(offset: RowOffset) -> bool {
    !offset.exceeds(LARGEST_LEAD as int) && !offset.falls_short_of(-LARGEST_LEAD)
}

impl ScrollStep {
    pub open spec fn wf(self) -> bool {
        self.usable ==> is_lead(self.from_current) && is_lead(self.from_rest)
    }
}

/// A distance that stops at a boundary in its way.
pub open spec fn stopped(
    offset: RowOffset,
    at_history_start: bool,
    at_live_bottom: bool,
) -> RowOffset {
    if (at_history_start && offset.is_up()) || (at_live_bottom && offset.is_down()) {
        RowOffset::Rows(0)
    } else {
        offset
    }
}

/// What a wheel movement does: the state afterwards, the position to ask the
/// emulator for, and whether the picture moved.
pub struct Accumulated {
    pub state: TerminalScrollState,
    pub request: Option<i64>,
    pub repaint: bool,
}

impl TerminalScrollState {
    pub open spec fn resting_at(position: i64) -> Self {
        TerminalScrollState {
            observed_viewport_position: position,
            visual_unacked_rows: RowOffset::Rows(0),
            requested_viewport_position: position,
        }
    }

    /// Where the picture stands, exactly.
    pub open spec fn picture_units(self) -> int {
        self.observed_viewport_position * crate::offset::units_per_row() + self.visual_unacked_rows.units()
    }

    /// The picture has run past a boundary that is now known.
    pub open spec fn in_debt(self, at_history_start: bool, at_live_bottom: bool) -> bool {
        (at_history_start && self.visual_unacked_rows.is_up()) || (at_live_bottom
            && self.visual_unacked_rows.is_down())
    }

    /// Movement beyond a boundary is dropped at once, so that turning back
    /// never has to repay it.
    pub open spec fn accumulated(
        self,
        step: ScrollStep,
        at_history_start: bool,
        at_live_bottom: bool,
    ) -> Accumulated {
        if !step.usable {
            Accumulated { state: self, request: None, repaint: false }
        } else {
            let debt = self.in_debt(at_history_start, at_live_bottom);
            let before = if debt {
                RowOffset::Rows(0)
            } else {
                self.visual_unacked_rows
            };
            let requested = if debt {
                self.observed_viewport_position
            } else {
                self.requested_viewport_position
            };
            let visual = stopped(
                if debt {
                    step.from_rest
                } else {
                    step.from_current
                },
                at_history_start,
                at_live_bottom,
            );
            let target = crate::arith::clamped_i64(
                self.observed_viewport_position + visual.whole(),
            ) as i64;
            Accumulated {
                state: TerminalScrollState {
                    observed_viewport_position: self.observed_viewport_position,
                    visual_unacked_rows: visual,
                    requested_viewport_position: target,
                },
                request: if target != requested {
                    Some(target)
                } else {
                    None
                },
                repaint: !visual.same_as(before),
            }
        }
    }

    /// The state after a snapshot: what the snapshot moved is taken off the
    /// distance of the picture, which `rebased` gives, and distance beyond a
    /// boundary that the snapshot shows is dropped.
    pub open spec fn reconciled(self, snapshot: TerminalSnapshot, rebased: RowOffset) -> Self {
        let visual = if snapshot.viewport_position == self.observed_viewport_position {
            self.visual_unacked_rows
        } else {
            rebased
        };
        if (visual.is_up() && snapshot.rows_before.len() == 0) || (visual.is_down()
            && snapshot.rows_after.len() == 0) {
            TerminalScrollState::resting_at(snapshot.viewport_position)
        } else {
            TerminalScrollState {
                observed_viewport_position: snapshot.viewport_position,
                visual_unacked_rows: visual,
                requested_viewport_position: self.requested_viewport_position,
            }
        }
    }

    pub fn new(viewport_position: i64) -> (state: Self)
        ensures
            state == Self::resting_at(viewport_position),
    {
        TerminalScrollState {
            observed_viewport_position: viewport_position,
            visual_unacked_rows: RowOffset::zero(),
            requested_viewport_position: viewport_position,
        }
    }

    /// Moves the picture away from any boundary.
    pub fn accumulate(&mut self, step: &ScrollStep) -> (outcome: (Option<i64>, bool))
        requires
            step.wf(),
        ensures
            *final(self) == old(self).accumulated(*step, false, false).state,
            outcome.0 == old(self).accumulated(*step, false, false).request,
            outcome.1 == old(self).accumulated(*step, false, false).repaint,
    {
        self.accumulate_with_boundaries(step, false, false)
    }

    /// Moves the picture, up to the boundaries that are known.
    pub fn accumulate_with_boundaries(
        &mut self,
        step: &ScrollStep,
        at_history_start: bool,
        at_live_bottom: bool,
    ) -> (outcome: (Option<i64>, bool))
        requires
            step.wf(),
        ensures
            *final(self) == old(self).accumulated(*step, at_history_start, at_live_bottom).state,
            outcome.0 == old(self).accumulated(*step, at_history_start, at_live_bottom).request,
            outcome.1 == old(self).accumulated(*step, at_history_start, at_live_bottom).repaint,
    {
        if !step.usable {
            return (None, false);
        }
        let debt: bool = (at_history_start && self.visual_unacked_rows.points_up()) || (
        at_live_bottom && self.visual_unacked_rows.points_down());
        if debt {
            self.visual_unacked_rows = RowOffset::zero();
            self.requested_viewport_position = self.observed_viewport_position;
        }
        let previous = self.visual_unacked_rows;
        let mut visual = if debt {
            step.from_rest
        } else {
            step.from_current
        };
        if at_history_start && visual.points_up() {
            visual = RowOffset::zero();
        }
        if at_live_bottom && visual.points_down() {
            visual = RowOffset::zero();
        }
        self.visual_unacked_rows = visual;
        let target: i64 = saturating_add_i64(self.observed_viewport_position, visual.whole_rows());
        let request: Option<i64> = if target != self.requested_viewport_position {
            Some(target)
        } else {
            None
        };
        self.requested_viewport_position = target;
        (request, !visual.equals(previous))
    }
}

/// Brings a scroll state up to a snapshot.
pub fn reconcile_visual_scroll(
    state: &mut TerminalScrollState,
    snapshot: &TerminalSnapshot,
    rebased: RowOffset,
)
    ensures
        *final(state) == old(state).reconciled(*snapshot, rebased),
{
    let visual = if snapshot.viewport_position == state.observed_viewport_position {
        state.visual_unacked_rows
    } else {
        rebased
    };
    state.observed_viewport_position = snapshot.viewport_position;
    state.visual_unacked_rows = visual;
    if (visual.points_up() && snapshot.rows_before.len() == 0) || (visual.points_down()
        && snapshot.rows_after.len() == 0) {
        state.visual_unacked_rows = RowOffset::zero();
        state.requested_viewport_position = snapshot.viewport_position;
    }
}

/// Remembers the position to ask for with the next frame; a later one replaces
/// an earlier one.
pub fn record_latest_viewport_request(
    pending: &mut BTreeMap<u128, (PaneId, i64)>,
    terminal_id: TerminalId,
    pane_id: PaneId,
    target: i64,
)
    ensures
        final(pending)@ == old(pending)@.insert(terminal_id.raw, (pane_id, target)),
{
    pending.insert(terminal_id.raw, (pane_id, target));
}

/// Brings the selection and the scroll state of a terminal up to a snapshot.
pub fn reconcile_local_viewport_snapshot(
    selection: &mut Option<TerminalSelection>,
    scroll_accumulators: &mut BTreeMap<u128, TerminalScrollState>,
    terminal_id: TerminalId,
    previous: &TerminalSnapshot,
    next: &TerminalSnapshot,
    rebased: RowOffset,
)
    ensures
        *final(selection) == crate::selection::following_viewport(
            *old(selection),
            terminal_id,
            *previous,
            *next,
        ),
        final(scroll_accumulators)@ == reconciled_in(
            old(scroll_accumulators)@,
            terminal_id,
            *next,
            rebased,
        ),
{
    shift_selection_for_viewport(selection, terminal_id, previous, next);
    let found: Option<TerminalScrollState> = match scroll_accumulators.get(&terminal_id.raw) {
        Some(state) => Some(*state),
        None => None,
    };
    if let Some(state) = found {
        let mut moved = state;
        reconcile_visual_scroll(&mut moved, next, rebased);
        scroll_accumulators.insert(terminal_id.raw, moved);
    }
}

/// Scroll states with that of one terminal brought up to a snapshot.
pub open spec fn reconciled_in(
    states: Map<u128, TerminalScrollState>,
    terminal_id: TerminalId,
    snapshot: TerminalSnapshot,
    rebased: RowOffset,
) -> Map<u128, TerminalScrollState> {
    if states.contains_key(terminal_id.raw) {
        states.insert(
            terminal_id.raw,
            states[terminal_id.raw].reconciled(snapshot, rebased),
        )
    } else {
        states
    }
}

/// Rows of the grid and around it that show when the picture is moved by an
/// offset, as first and end.
pub open spec fn visible_rows(screen_lines: int, offset: RowOffset) -> (int, int) {
    (
        -offset.whole() - (if offset.fraction_up() {
            1int
        } else {
            0
        }),
        screen_lines - offset.whole() + (if offset.fraction_down() {
            1int
        } else {
            0
        }),
    )
}

/// The visible rows are addressable.
pub open spec fn rows_are_addressable(screen_lines: int, offset: RowOffset) -> bool {
    let rows = visible_rows(screen_lines, offset);
    i32::MIN <= rows.0 <= i32::MAX && i32::MIN <= rows.1 <= i32::MAX
}

pub fn terminal_visible_source_rows(screen_lines: usize, offset: RowOffset) -> (rows: Range<i32>)
    requires
        rows_are_addressable(screen_lines as int, offset),
    ensures
        (rows.start as int, rows.end as int) == visible_rows(screen_lines as int, offset),
{
    let whole: i64 = offset.whole_rows();
    let above: i64 = if offset.has_fraction_up() { 1 } else { 0 };
    let below: i64 = if offset.has_fraction_down() { 1 } else { 0 };
    let first: i64 = -whole - above;
    let end: i128 = screen_lines as i128 - whole as i128 + below as i128;
    (first as i32)..(end as i32)
}

/// The row whose picture lies under a painted row, kept inside the visible
/// rows. Without a painted row the first visible row is meant.
pub open spec fn source_row(screen_lines: int, offset: RowOffset, painted: Option<i32>) -> int {
    let rows = visible_rows(screen_lines, offset);
    if rows.0 >= rows.1 {
        0
    } else {
        match painted {
            None => rows.0,
            Some(row) => crate::arith::smaller_of(
                crate::arith::larger_of(
                    crate::arith::clamped_i32(
                        row - crate::arith::clamped_i32(offset.whole()),
                    ),
                    rows.0,
                ),
                rows.1 - 1,
            ),
        }
    }
}

pub fn terminal_source_row_at(screen_lines: usize, offset: RowOffset, painted_row: Option<i32>) -> (row:
    i32)
    requires
        rows_are_addressable(screen_lines as int, offset),
    ensures
        row == source_row(screen_lines as int, offset, painted_row),
{
    let visible = terminal_visible_source_rows(screen_lines, offset);
    if visible.start >= visible.end {
        return 0;
    }
    match painted_row {
        None => visible.start,
        Some(painted) => {
            let whole: i32 = clamp_to_i32(offset.whole_rows());
            let row: i32 = saturating_sub_i32(painted, whole);
            let low: i32 = if row >= visible.start {
                row
            } else {
                visible.start
            };
            let last: i32 = visible.end - 1;
            if low <= last {
                low
            } else {
                last
            }
        },
    }
}

/// Rows to prepare for painting: the visible ones and a band around them, as
/// far as the snapshot goes.
pub open spec fn prepared_rows(start: int, end: int, first: int, past: int) -> (int, int) {
    if start >= end {
        (0, 0)
    } else {
        (
            crate::arith::larger_of(
                crate::arith::clamped_i32(start - PREPARED_ROW_LOOKAHEAD),
                first,
            ),
            crate::arith::smaller_of(
                crate::arith::clamped_i32(end + PREPARED_ROW_LOOKAHEAD),
                past,
            ),
        )
    }
}

pub fn terminal_prepared_source_rows(
    visible_rows: Range<i32>,
    snapshot_first: i32,
    snapshot_end: i32,
) -> (rows: Range<i32>)
    ensures
        (rows.start as int, rows.end as int) == prepared_rows(
            visible_rows.start as int,
            visible_rows.end as int,
            snapshot_first as int,
            snapshot_end as int,
        ),
{
    if visible_rows.start >= visible_rows.end {
        return 0..0;
    }
    let start: i32 = saturating_sub_i32(visible_rows.start, PREPARED_ROW_LOOKAHEAD);
    let end: i32 = saturating_add_i32(visible_rows.end, PREPARED_ROW_LOOKAHEAD);
    let first: i32 = if start >= snapshot_first { start } else { snapshot_first };
    let past: i32 = if end <= snapshot_end { end } else { snapshot_end };
    first..past
}

/// The offset that a picture is painted with: as far as rows are at hand. The
/// result is a whole number of rows where the offset had to stop.
pub open spec fn paint_offset(offset: RowOffset, snapshot: TerminalSnapshot) -> RowOffset {
    let overscan = snapshot.rows_before.len() as int;
    let lowest = -crate::arith::smaller_of(snapshot.last_source_row as int, overscan);
    if offset.falls_short_of(lowest) {
        RowOffset::Rows(lowest as i64)
    } else if offset.exceeds(overscan) {
        RowOffset::Rows(overscan as i64)
    } else {
        offset
    }
}

/// The rows at hand lead from the history to the live bottom, and there are
/// not more than a picture can be moved over.
pub open spec fn is_paintable(snapshot: TerminalSnapshot) -> bool {
    &&& snapshot.rows_before.len() <= 0x1000000
    &&& snapshot.last_source_row + snapshot.rows_before.len() >= 0
    &&& snapshot.size.lines <= 0x70000000
}

/// Whether a grid can be addressed and painted.
pub fn can_be_painted(snapshot: &TerminalSnapshot) -> (paintable: bool)
    ensures
        paintable == (snapshot.wf() && is_paintable(*snapshot)),
{
    let before: usize = snapshot.rows_before.len();
    let after: usize = snapshot.rows_after.len();
    let lines: usize = snapshot.size.lines;
    if before > 0x1000000 || lines > 0x70000000 || after > 0x7fffffff {
        return false;
    }
    snapshot.size.columns <= 0x7fffffff && lines + after <= 0x7fffffff && (
    snapshot.last_source_row >= 0 || snapshot.last_source_row + before as i64 >= 0)
}

pub fn terminal_scroll_offset_for_snapshot(offset: RowOffset, snapshot: &TerminalSnapshot) -> (painted:
    RowOffset)
    requires
        is_paintable(*snapshot),
    ensures
        painted == paint_offset(offset, *snapshot),
        rows_are_addressable(snapshot.size.lines as int, painted),
{
    let overscan: i64 = snapshot.rows_before.len() as i64;
    let limit: i64 = if snapshot.last_source_row <= overscan {
        snapshot.last_source_row
    } else {
        overscan
    };
    let lowest: i64 = -limit;
    if offset.is_below(lowest) {
        RowOffset::Rows(lowest)
    } else if offset.is_above(overscan) {
        RowOffset::Rows(overscan)
    } else {
        offset
    }
}

/// The endpoint of a selection under the pointer, given the row whose picture
/// lies there.
pub open spec fn endpoint_at(
    snapshot: TerminalSnapshot,
    mouse: TerminalMousePosition,
    row: int,
) -> TerminalSelectionEndpoint {
    let columns = snapshot.size.columns as int;
    let column = if mouse.column >= 1 {
        mouse.column - 1
    } else {
        0
    };
    let last_column = if columns >= 1 {
        columns - 1
    } else {
        0
    };
    let first_row = -(snapshot.rows_before.len() as int);
    let last_row = snapshot.size.lines + snapshot.rows_after.len() - 1;
    TerminalSelectionEndpoint {
        position: TerminalCellPosition {
            row: crate::arith::smaller_of(
                crate::arith::larger_of(row, first_row),
                if last_row >= 0 {
                    last_row
                } else {
                    0
                },
            ) as i32,
            column: crate::arith::smaller_of(column, last_column) as usize,
        },
        side: if mouse.row > snapshot.size.lines || mouse.column > columns {
            TerminalSelectionSide::Right
        } else {
            mouse.side
        },
    }
}

pub fn terminal_selection_endpoint_at(
    snapshot: &TerminalSnapshot,
    mouse: TerminalMousePosition,
    source_row: i32,
) -> (endpoint: TerminalSelectionEndpoint)
    requires
        snapshot.wf(),
    ensures
        endpoint == endpoint_at(*snapshot, mouse, source_row as int),
{
    let column: usize = mouse.column.saturating_sub(1);
    let last_column: usize = snapshot.size.columns.saturating_sub(1);
    let side = if mouse.row > snapshot.size.lines || mouse.column > snapshot.size.columns {
        TerminalSelectionSide::Right
    } else {
        mouse.side
    };
    let first_row: i32 = -(snapshot.rows_before.len() as i32);
    let last_row: i32 = (snapshot.size.lines + snapshot.rows_after.len()).saturating_sub(1) as i32;
    let low: i32 = if source_row >= first_row { source_row } else { first_row };
    let row: i32 = if low <= last_row { low } else { last_row };
    TerminalSelectionEndpoint {
        position: TerminalCellPosition {
            row,
            column: if column <= last_column {
                column
            } else {
                last_column
            },
        },
        side,
    }
}

/// At a known boundary the picture never stands beyond it, however far it was
/// pushed before.
pub proof fn law_boundaries_hold(
    state: TerminalScrollState,
    step: ScrollStep,
    at_history_start: bool,
    at_live_bottom: bool,
)
    requires
        step.usable,
    ensures
        ({
            let visual = state.accumulated(
                step,
                at_history_start,
                at_live_bottom,
            ).state.visual_unacked_rows;
            &&& at_history_start ==> !visual.is_up()
            &&& at_live_bottom ==> !visual.is_down()
        }),
{
}

/// However far the picture was ahead, a movement leaves it at most the largest
/// lead ahead of the latest snapshot, which stays the one it counts from.
pub proof fn law_the_lead_is_bounded(
    state: TerminalScrollState,
    step: ScrollStep,
    at_history_start: bool,
    at_live_bottom: bool,
)
    requires
        step.wf(),
        step.usable,
    ensures
        ({
            let after = state.accumulated(step, at_history_start, at_live_bottom).state;
            &&& is_lead(after.visual_unacked_rows)
            &&& -LARGEST_LEAD * crate::offset::units_per_row() <= after.visual_unacked_rows.units()
                <= LARGEST_LEAD * crate::offset::units_per_row()
            &&& after.observed_viewport_position == state.observed_viewport_position
        }),
{
    let after = state.accumulated(step, at_history_start, at_live_bottom).state;
    crate::offset::law_units_order_distances(after.visual_unacked_rows, LARGEST_LEAD as int);
    crate::offset::law_units_order_distances(after.visual_unacked_rows, -LARGEST_LEAD);
}

/// Turning back at a boundary moves at once: the outcome does not depend on
/// how far the picture had been pushed beyond it, nor on what was asked for.
pub proof fn law_turning_back_repays_nothing(
    first: TerminalScrollState,
    second: TerminalScrollState,
    step: ScrollStep,
    at_history_start: bool,
    at_live_bottom: bool,
)
    requires
        first.observed_viewport_position == second.observed_viewport_position,
        first.in_debt(at_history_start, at_live_bottom),
        second.in_debt(at_history_start, at_live_bottom),
    ensures
        step.usable ==> first.accumulated(step, at_history_start, at_live_bottom)
            == second.accumulated(step, at_history_start, at_live_bottom),
{
}

/// The emulator is always asked for the position of the picture in whole rows,
/// and asked again only where that changed.
pub proof fn law_requests_follow_the_picture(
    state: TerminalScrollState,
    step: ScrollStep,
    at_history_start: bool,
    at_live_bottom: bool,
)
    requires
        step.usable,
    ensures
        ({
            let outcome = state.accumulated(step, at_history_start, at_live_bottom);
            &&& outcome.state.requested_viewport_position == crate::arith::clamped_i64(
                state.observed_viewport_position + outcome.state.visual_unacked_rows.whole(),
            )
            &&& outcome.request == if outcome.state.requested_viewport_position == (
            if state.in_debt(at_history_start, at_live_bottom) {
                state.observed_viewport_position
            } else {
                state.requested_viewport_position
            }) {
                None
            } else {
                Some(outcome.state.requested_viewport_position)
            }
        }),
{
}

/// A snapshot never moves the picture: where exactly the rows that it moved are
/// taken off the distance, the position of the picture stays the same to the
/// last fraction of a row, unless the snapshot shows that it stands beyond a
/// boundary. What was asked of the emulator stays asked.
pub proof fn law_snapshots_do_not_move_the_picture(
    state: TerminalScrollState,
    snapshot: TerminalSnapshot,
    rebased: RowOffset,
)
    requires
        rebased.units() == state.visual_unacked_rows.units() - (snapshot.viewport_position
            - state.observed_viewport_position) * crate::offset::units_per_row(),
        rebased.is_up() ==> snapshot.rows_before.len() > 0,
        rebased.is_down() ==> snapshot.rows_after.len() > 0,
    ensures
        ({
            let after = state.reconciled(snapshot, rebased);
            &&& after.observed_viewport_position == snapshot.viewport_position
            &&& after.picture_units() == state.picture_units()
            &&& after.requested_viewport_position == state.requested_viewport_position
        }),
{
    let unit = crate::offset::units_per_row();
    let old_row = state.observed_viewport_position as int;
    let new_row = snapshot.viewport_position as int;
    if new_row == old_row {
        assert((new_row - old_row) * unit == 0) by (nonlinear_arith)
            requires
                new_row == old_row,
        ;
        crate::offset::law_units_order_distances(rebased, 0);
        crate::offset::law_units_order_distances(state.visual_unacked_rows, 0);
    }
    assert(new_row * unit == old_row * unit + (new_row - old_row) * unit) by (nonlinear_arith);
}

/// Counted in whole rows, too, a snapshot does not move the picture where the
/// whole part of the distance takes up what the snapshot moved.
pub proof fn law_snapshots_keep_the_row_shown(
    state: TerminalScrollState,
    snapshot: TerminalSnapshot,
    rebased: RowOffset,
)
    requires
        snapshot.viewport_position != state.observed_viewport_position ==> rebased.whole()
            == state.visual_unacked_rows.whole() - (snapshot.viewport_position
            - state.observed_viewport_position),
        snapshot.rows_before.len() > 0,
        snapshot.rows_after.len() > 0,
    ensures
        ({
            let after = state.reconciled(snapshot, rebased);
            &&& after.observed_viewport_position + after.visual_unacked_rows.whole()
                == state.observed_viewport_position + state.visual_unacked_rows.whole()
            &&& after.requested_viewport_position == state.requested_viewport_position
        }),
{
}

/// After a snapshot the picture stands on rows that exist.
pub proof fn law_snapshots_show_the_boundaries(
    state: TerminalScrollState,
    snapshot: TerminalSnapshot,
    rebased: RowOffset,
)
    ensures
        ({
            let after = state.reconciled(snapshot, rebased);
            &&& after.observed_viewport_position == snapshot.viewport_position
            &&& after.visual_unacked_rows.is_up() ==> snapshot.rows_before.len() > 0
            &&& after.visual_unacked_rows.is_down() ==> snapshot.rows_after.len() > 0
        }),
{
}

/// Of several requests within a frame only the latest is kept, and those of
/// other terminals stay.
pub proof fn law_latest_request_wins(
    pending: Map<u128, (PaneId, i64)>,
    terminal: u128,
    other: u128,
    earlier: (PaneId, i64),
    later: (PaneId, i64),
)
    requires
        other != terminal,
    ensures
        pending.insert(terminal, earlier).insert(terminal, later) == pending.insert(
            terminal,
            later,
        ),
        pending.insert(terminal, later).contains_key(other) == pending.contains_key(other),
        pending.contains_key(other) ==> pending.insert(terminal, later)[other] == pending[other],
{
    assert(pending.insert(terminal, earlier).insert(terminal, later) =~= pending.insert(
        terminal,
        later,
    ));
}

/// A picture that stands still between rows shows one row more than the
/// screen has lines, any other exactly as many.
pub proof fn law_visible_rows_fill_the_screen(screen_lines: nat, offset: RowOffset)
    ensures
        ({
            let rows = visible_rows(screen_lines as int, offset);
            rows.1 - rows.0 == screen_lines + (if offset.fraction_up() || offset.fraction_down() {
                1int
            } else {
                0
            })
        }),
{
}

/// The prepared rows hold every visible row that the snapshot has, and no more
/// than the lookahead around them.
pub proof fn law_prepared_rows_cover_the_visible(
    start: int,
    end: int,
    first: int,
    past: int,
    row: int,
)
    requires
        i32::MIN <= start < end <= i32::MAX,
    ensures
        ({
            let rows = prepared_rows(start, end, first, past);
            &&& start <= row < end && first <= row < past ==> rows.0 <= row < rows.1
            &&& start - rows.0 <= PREPARED_ROW_LOOKAHEAD
            &&& rows.1 - end <= PREPARED_ROW_LOOKAHEAD
        }),
{
}

/// A row shows exactly where its picture, moved by the offset, touches the
/// screen: it ends below the upper edge and starts above the lower one.
pub proof fn law_rows_show_where_they_touch_the_screen(
    screen_lines: int,
    offset: RowOffset,
    row: int,
)
    ensures
        ({
            let (first, end) = visible_rows(screen_lines, offset);
            let unit = crate::offset::units_per_row();
            &&& first <= row <==> offset.units() > (-row - 1) * unit
            &&& row < end <==> offset.units() < (screen_lines - row) * unit
        }),
{
    crate::offset::law_units_order_distances(offset, -row - 1);
    crate::offset::law_units_order_distances(offset, screen_lines - row);
}

/// The row under the pointer is the one whose picture was moved there; beyond
/// the visible rows the nearest of them is meant.
pub proof fn law_pointers_find_the_row_painted_there(
    screen_lines: int,
    offset: RowOffset,
    row: int,
    painted: i32,
)
    requires
        painted == row + offset.whole(),
        i32::MIN <= row <= i32::MAX,
        i32::MIN <= offset.whole() <= i32::MAX,
        rows_are_addressable(screen_lines, offset),
    ensures
        ({
            let (first, end) = visible_rows(screen_lines, offset);
            let found = source_row(screen_lines, offset, Some(painted));
            &&& first <= row < end ==> found == row
            &&& first < end && row < first ==> found == first
            &&& first < end && row >= end ==> found == end - 1
        }),
{
}

/// A picture is moved as far as it was scrolled, but never beyond the rows that
/// are at hand above it nor past the newest row below it.
pub proof fn law_pictures_stop_at_the_rows_at_hand(offset: RowOffset, snapshot: TerminalSnapshot)
    requires
        is_paintable(snapshot),
    ensures
        ({
            let unit = crate::offset::units_per_row();
            let above = snapshot.rows_before.len() as int;
            let below = if snapshot.last_source_row <= above {
                snapshot.last_source_row as int
            } else {
                above
            };
            let painted = paint_offset(offset, snapshot);
            &&& -below * unit <= painted.units() <= above * unit
            &&& -below * unit <= offset.units() <= above * unit ==> painted == offset
            &&& offset.units() > above * unit ==> painted.units() == above * unit
            &&& offset.units() < -below * unit ==> painted.units() == -below * unit
        }),
{
    let above = snapshot.rows_before.len() as int;
    let below = if snapshot.last_source_row <= above {
        snapshot.last_source_row as int
    } else {
        above
    };
    let unit = crate::offset::units_per_row();
    vstd::arithmetic::power2::lemma_pow2_pos(149);
    crate::offset::law_units_order_distances(offset, above);
    crate::offset::law_units_order_distances(offset, -below);
    assert(-below * unit <= above * unit) by (nonlinear_arith)
        requires
            -below <= above,
            unit > 0,
    ;
}

/// The pointer selects the cell it is over: columns count from one in the
/// window and from zero in the grid. Right of or below the grid it stands
/// behind the nearest cell, and rows stop at those at hand.
pub proof fn law_pointers_select_the_cell_they_are_over(
    snapshot: TerminalSnapshot,
    mouse: TerminalMousePosition,
    row: int,
)
    requires
        snapshot.wf(),
        snapshot.size.columns > 0,
        snapshot.size.lines > 0,
        mouse.column >= 1,
    ensures
        ({
            let endpoint = endpoint_at(snapshot, mouse, row);
            let first = -(snapshot.rows_before.len() as int);
            let last = snapshot.size.lines + snapshot.rows_after.len() - 1;
            &&& mouse.column <= snapshot.size.columns ==> endpoint.position.column == mouse.column
                - 1
            &&& mouse.column > snapshot.size.columns ==> endpoint.position.column
                == snapshot.size.columns - 1
            &&& mouse.column <= snapshot.size.columns && mouse.row <= snapshot.size.lines
                ==> endpoint.side == mouse.side
            &&& mouse.column > snapshot.size.columns || mouse.row > snapshot.size.lines
                ==> endpoint.side == TerminalSelectionSide::Right
            &&& first <= row <= last ==> endpoint.position.row == row
            &&& row < first ==> endpoint.position.row == first
            &&& row > last ==> endpoint.position.row == last
        }),
{
}

/// Away from any boundary a movement takes the picture where it was measured
/// to; a picture that had run past a boundary starts from there. The window is
/// drawn again only where the picture moved.
pub proof fn law_movements_move_the_picture(
    state: TerminalScrollState,
    step: ScrollStep,
    at_history_start: bool,
    at_live_bottom: bool,
)
    requires
        step.usable,
    ensures
        ({
            let free = state.accumulated(step, false, false);
            &&& free.state.visual_unacked_rows == step.from_current
            &&& free.repaint == !step.from_current.same_as(state.visual_unacked_rows)
        }),
        ({
            let debt = (at_history_start && state.visual_unacked_rows.is_up()) || (at_live_bottom
                && state.visual_unacked_rows.is_down());
            let reached = if debt {
                step.from_rest
            } else {
                step.from_current
            };
            let after = state.accumulated(
                step,
                at_history_start,
                at_live_bottom,
            ).state.visual_unacked_rows;
            &&& !(at_history_start && reached.is_up()) && !(at_live_bottom && reached.is_down())
                ==> after == reached
            &&& (at_history_start && reached.is_up()) || (at_live_bottom && reached.is_down())
                ==> after == RowOffset::Rows(0)
        }),
        state.accumulated(
            ScrollStep { usable: false, ..step },
            at_history_start,
            at_live_bottom,
        ).state == state,
{
}

/// A terminal without a scroll state starts where it is, with nothing owed.
pub proof fn law_scroll_states_start_at_rest(position: i64)
    ensures
        TerminalScrollState::resting_at(position).observed_viewport_position == position,
        TerminalScrollState::resting_at(position).requested_viewport_position == position,
        TerminalScrollState::resting_at(position).visual_unacked_rows.units() == 0,
{
    assert(0 * crate::offset::units_per_row() == 0) by (nonlinear_arith);
}

/// A row is prepared where it is at hand and at most eight rows from what is
/// visible.
pub proof fn law_near_rows_are_prepared(start: int, end: int, first: int, past: int, row: int)
    requires
        i32::MIN <= start < end <= i32::MAX,
        i32::MIN <= first,
        past <= i32::MAX,
        first <= row < past,
    ensures
        ({
            let rows = prepared_rows(start, end, first, past);
            rows.0 <= row < rows.1 <==> start - 8 <= row < end + 8
        }),
{
}

/// A new snapshot is where the scroll continues from. What the picture leads by
/// is kept where the viewport did not move, and given up where it leads beyond
/// the rows that there are.
pub proof fn law_snapshots_are_continued_from(
    state: TerminalScrollState,
    snapshot: TerminalSnapshot,
    rebased: RowOffset,
)
    ensures
        ({
            let after = state.reconciled(snapshot, rebased);
            let lead = if snapshot.viewport_position == state.observed_viewport_position {
                state.visual_unacked_rows
            } else {
                rebased
            };
            let beyond = (lead.units() > 0 && snapshot.rows_before.len() == 0) || (lead.units() < 0
                && snapshot.rows_after.len() == 0);
            &&& after.observed_viewport_position == snapshot.viewport_position
            &&& !beyond ==> after.visual_unacked_rows == lead && after.requested_viewport_position
                == state.requested_viewport_position
            &&& beyond ==> after.visual_unacked_rows.units() == 0
                && after.requested_viewport_position == snapshot.viewport_position
        }),
{
    crate::offset::law_whole_rows_are_cut_off(
        if snapshot.viewport_position == state.observed_viewport_position {
            state.visual_unacked_rows
        } else {
            rebased
        },
    );
    assert(0 * crate::offset::units_per_row() == 0) by (nonlinear_arith);
}

/// A movement asks for the position that the picture has reached by whole rows,
/// where that was not asked for before.
pub proof fn law_movements_ask_for_whole_rows(state: TerminalScrollState, step: ScrollStep)
    requires
        step.usable,
        i64::MIN <= state.observed_viewport_position + step.from_current.whole() <= i64::MAX,
    ensures
        ({
            let target = state.observed_viewport_position + step.from_current.whole();
            let outcome = state.accumulated(step, false, false);
            &&& outcome.state.requested_viewport_position == target
            &&& outcome.state.observed_viewport_position == state.observed_viewport_position
            &&& target == state.requested_viewport_position ==> outcome.request is None
            &&& target != state.requested_viewport_position ==> outcome.request is Some
                && outcome.request->0 == target
        }),
{
}

} // verus!
