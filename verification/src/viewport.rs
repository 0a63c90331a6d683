//! What part of its history a terminal shows.

use crate::command::Effect;
use crate::ids::PaneId;
use crate::ids::TerminalId;
use crate::model::active_tab;
use crate::model::collect_terminal_ids;
use crate::offset::RowOffset;
use crate::scroll::reconcile_local_viewport_snapshot;
use crate::scroll::record_latest_viewport_request;
use crate::scroll::ScrollStep;
use crate::scroll::TerminalScrollState;
use crate::tables::drop_keys;
use crate::tables::keys_of;
use crate::terminal::TerminalSnapshot;
use crate::view::MouseScrollAnimation;
use crate::view::WorkspaceView;
use std::collections::BTreeMap;
use std::collections::BTreeSet;
use std::sync::Arc;
use vstd::prelude::*;

verus! {

/// The distance from a position down to the live bottom.
pub open spec fn to_bottom(position: i64) -> RowOffset {
    RowOffset::Rows(crate::arith::clamped_i64(-(position as int)) as i64)
}

/// What a wheel movement moved.
pub struct Moved {
    pub view: crate::view::ViewModel,
    pub request: Option<i64>,
    pub repaint: bool,
}

impl crate::view::ViewModel {
    /// The position that a terminal shows, as far as its grid is at hand.
    pub open spec fn position_of(self, terminal_id: TerminalId) -> i64 {
        match self.terminal_snapshot(terminal_id) {
            Some(snapshot) => snapshot.viewport_position,
            None => 0,
        }
    }

    /// With a terminal to be moved to a position. Away from the bottom it is
    /// pinned, so that output does not move it.
    pub open spec fn scrolling_to(self, terminal_id: TerminalId, target: i64) -> Self {
        if !self.has_application {
            self
        } else {
            self.asking(
                crate::command::EffectModel::PinViewport {
                    connection_id: self.active_connection,
                    terminal_id,
                    pinned: target != 0,
                },
            ).asking(
                crate::command::EffectModel::ScrollTo {
                    connection_id: self.active_connection,
                    terminal_id,
                    target,
                },
            )
        }
    }

    /// With a terminal to be moved by some rows.
    pub open spec fn scrolling_by(self, terminal_id: TerminalId, delta: i64) -> Self {
        if !self.has_application {
            self
        } else {
            let pinned = if self.position_of(terminal_id) + delta > 0 {
                self.asking(
                    crate::command::EffectModel::PinViewport {
                        connection_id: self.active_connection,
                        terminal_id,
                        pinned: true,
                    },
                )
            } else {
                self
            };
            pinned.asking(
                crate::command::EffectModel::ScrollBy {
                    connection_id: self.active_connection,
                    terminal_id,
                    delta,
                },
            )
        }
    }

    /// The scroll state of a terminal; at rest where there is none yet.
    pub open spec fn scroll_state(self, terminal_id: TerminalId) -> TerminalScrollState {
        if self.scrolling.scroll_accumulators.contains_key(terminal_id.raw) {
            self.scrolling.scroll_accumulators[terminal_id.raw]
        } else {
            TerminalScrollState::resting_at(self.position_of(terminal_id))
        }
    }

    pub open spec fn with_scroll_state(
        self,
        terminal_id: TerminalId,
        state: TerminalScrollState,
    ) -> Self {
        crate::view::ViewModel {
            scrolling: crate::view::ScrollingModel {
                scroll_accumulators: self.scrolling.scroll_accumulators.insert(terminal_id.raw, state),
                ..self.scrolling
            },
            ..self
        }
    }

    /// With nothing left that would move a terminal later.
    pub open spec fn at_rest(self, terminal_id: TerminalId) -> Self {
        crate::view::ViewModel {
            selection: None,
            press: crate::view::PressModel { selection_autoscroll: None, ..self.press },
            scrolling: crate::view::ScrollingModel {
                active_trackpad_scrolls: self.scrolling.active_trackpad_scrolls.remove(terminal_id.raw),
                mouse_scroll_animations: self.scrolling.mouse_scroll_animations.remove(terminal_id.raw),
                pending_viewport_requests: self.scrolling.pending_viewport_requests.remove(terminal_id.raw),
                ..self.scrolling
            },
            ..self
        }
    }

    /// A terminal shows or is about to show its history.
    pub open spec fn is_scrolled(self, terminal_id: TerminalId) -> bool {
        let state = self.scroll_state(terminal_id);
        ||| self.scrolling.pending_viewport_requests.contains_key(terminal_id.raw)
        ||| state.observed_viewport_position != 0
        ||| !state.visual_unacked_rows.is_zero()
        ||| state.requested_viewport_position != 0
    }

    /// With a terminal back at its live bottom, as before input. The picture
    /// goes there at once, as far as there are rows to paint.
    pub open spec fn at_live_bottom(self, terminal_id: TerminalId) -> Self {
        let state = self.scroll_state(terminal_id);
        let rested = self.at_rest(terminal_id);
        if !self.is_scrolled(terminal_id) {
            rested.with_scroll_state(terminal_id, state)
        } else {
            rested.with_scroll_state(
                terminal_id,
                TerminalScrollState {
                    visual_unacked_rows: to_bottom(state.observed_viewport_position),
                    requested_viewport_position: 0,
                    ..state
                },
            ).scrolling_to(terminal_id, 0).notified()
        }
    }

    /// With a terminal on the way to its live bottom after output, while the
    /// picture stays where the user reads.
    pub open spec fn guarded(self, terminal_id: TerminalId) -> Self {
        let state = self.scroll_state(terminal_id);
        let rested = self.at_rest(terminal_id);
        if self.position_of(terminal_id) == 0 {
            rested.with_scroll_state(terminal_id, state)
        } else {
            rested.with_scroll_state(
                terminal_id,
                TerminalScrollState {
                    visual_unacked_rows: RowOffset::Rows(0),
                    requested_viewport_position: 0,
                    ..state
                },
            ).scrolling_to(terminal_id, 0).notified()
        }
    }

    /// The terminals that the tab shown projects.
    pub open spec fn displayed(self) -> Set<u128> {
        match self.selected() {
            Some(workspace) => match workspace.active() {
                Some(tab) => tab.tree.terminals(),
                None => Set::empty(),
            },
            None => Set::empty(),
        }
    }

    /// The grid of a terminal is wanted after output.
    pub open spec fn wants_grid(self, terminal_id: TerminalId) -> bool {
        self.has_application && self.displayed().contains(terminal_id.raw)
    }

    /// With output announced for a terminal. That of a hidden one is dropped.
    pub open spec fn output_announced(self, terminal_id: TerminalId) -> Self {
        if !self.has_application {
            self
        } else if !self.displayed().contains(terminal_id.raw) {
            crate::view::ViewModel {
                terminal_snapshots: self.terminal_snapshots.remove(terminal_id.raw),
                ..self
            }
        } else if self.position_of(terminal_id) > 0 {
            self.guarded(terminal_id)
        } else {
            self
        }
    }

    /// With the grid of a terminal at hand or gone.
    pub open spec fn output_arrived(
        self,
        terminal_id: TerminalId,
        grid: Option<Arc<TerminalSnapshot>>,
        rebased: RowOffset,
    ) -> Self {
        match grid {
            Some(snapshot) => {
                let followed = match self.terminal_snapshot(terminal_id) {
                    Some(previous) => crate::view::ViewModel {
                        selection: crate::selection::following_viewport(
                            self.selection,
                            terminal_id,
                            previous,
                            *snapshot,
                        ),
                        scrolling: crate::view::ScrollingModel {
                            scroll_accumulators: crate::scroll::reconciled_in(
                                self.scrolling.scroll_accumulators,
                                terminal_id,
                                *snapshot,
                                rebased,
                            ),
                            ..self.scrolling
                        },
                        ..self
                    },
                    None => self,
                };
                crate::view::ViewModel {
                    terminal_snapshots: self.terminal_snapshots.insert(terminal_id.raw, snapshot),
                    ..followed
                }
            },
            None => crate::view::ViewModel {
                terminal_snapshots: self.terminal_snapshots.remove(terminal_id.raw),
                selection: if self.selection is Some && self.selection->0.terminal_id
                    == terminal_id {
                    None
                } else {
                    self.selection
                },
                ..self
            },
        }
    }

    /// A wheel movement on a terminal, up to the ends of its history that are
    /// known.
    pub open spec fn accumulating(self, terminal_id: TerminalId, step: ScrollStep) -> Moved {
        let (at_start, at_bottom) = match self.terminal_snapshot(terminal_id) {
            Some(snapshot) => (snapshot.rows_before.len() == 0, snapshot.rows_after.len() == 0),
            None => (false, false),
        };
        let moved = self.scroll_state(terminal_id).accumulated(step, at_start, at_bottom);
        Moved {
            view: self.with_scroll_state(terminal_id, moved.state),
            request: moved.request,
            repaint: moved.repaint,
        }
    }

    /// With a position to be asked for with the next frame.
    pub open spec fn queueing(self, terminal_id: TerminalId, pane_id: PaneId, target: i64) -> Self {
        let recorded = crate::view::ViewModel {
            scrolling: crate::view::ScrollingModel {
                pending_viewport_requests: self.scrolling.pending_viewport_requests.insert(
                    terminal_id.raw,
                    (pane_id, target),
                ),
                ..self.scrolling
            },
            ..self
        };
        if self.scrolling.viewport_request_frame_pending {
            recorded
        } else {
            crate::view::ViewModel {
                scrolling: crate::view::ScrollingModel {
                    viewport_request_frame_pending: true,
                    ..recorded.scrolling
                },
                ..recorded
            }.asking(
                crate::command::EffectModel::RequestViewportFrame,
            )
        }
    }

    /// With a wheel movement and what it asks for.
    pub open spec fn wheeling(self, terminal_id: TerminalId, pane_id: PaneId, step: ScrollStep) -> Moved {
        let moved = self.accumulating(terminal_id, step);
        Moved {
            view: match moved.request {
                Some(target) => moved.view.queueing(terminal_id, pane_id, target),
                None => moved.view,
            },
            ..moved
        }
    }

    /// With the requests of some terminals sent, in order.
    pub open spec fn sending(self, keys: Seq<u128>, requests: Map<u128, (PaneId, i64)>) -> Self
        decreases keys.len(),
    {
        if keys.len() == 0 {
            self
        } else {
            self.sending(keys.drop_last(), requests).scrolling_to(
                TerminalId { raw: keys.last() },
                requests[keys.last()].1,
            )
        }
    }

    /// With the frame come that sends the requests.
    pub open spec fn viewport_frame(self) -> Self {
        crate::view::ViewModel {
            scrolling: crate::view::ScrollingModel {
                viewport_request_frame_pending: false,
                pending_viewport_requests: Map::empty(),
                ..self.scrolling
            },
            ..self
        }.sending(
            crate::tables::in_order(self.scrolling.pending_viewport_requests.dom()),
            self.scrolling.pending_viewport_requests,
        )
    }

    /// A position stopped at the ends of the history that are known.
    pub open spec fn position_within(self, terminal_id: TerminalId, position: RowOffset) -> RowOffset {
        match self.terminal_snapshot(terminal_id) {
            Some(snapshot) => {
                let base = snapshot.viewport_position;
                if snapshot.history_len == 0 && position.exceeds(base as int) {
                    RowOffset::Rows(base)
                } else if snapshot.rows_after.len() == 0 && position.falls_short_of(base as int) {
                    RowOffset::Rows(base)
                } else {
                    position
                }
            },
            None => position,
        }
    }

    /// With a wheel notch: one that leads nowhere ends the movement, another
    /// moves the picture a first step at once.
    pub open spec fn notching(
        self,
        terminal_id: TerminalId,
        pane_id: PaneId,
        negligible: bool,
        step: ScrollStep,
    ) -> Moved {
        if negligible {
            Moved {
                view: crate::view::ViewModel {
                    scrolling: crate::view::ScrollingModel {
                        mouse_scroll_animations: self.scrolling.mouse_scroll_animations.remove(terminal_id.raw),
                        ..self.scrolling
                    },
                    ..self
                },
                request: None,
                repaint: false,
            }
        } else {
            self.wheeling(terminal_id, pane_id, step)
        }
    }

    pub open spec fn asking_scroll_frame(self) -> Self {
        if self.scrolling.mouse_scroll_frame_pending {
            self
        } else {
            crate::view::ViewModel {
                scrolling: crate::view::ScrollingModel {
                    mouse_scroll_frame_pending: true,
                    ..self.scrolling
                },
                ..self
            }.asking(
                crate::command::EffectModel::RequestMouseScrollFrame,
            )
        }
    }

    pub open spec fn animating(self, terminal_id: TerminalId, animation: MouseScrollAnimation) -> Self {
        crate::view::ViewModel {
            scrolling: crate::view::ScrollingModel {
                mouse_scroll_animations: self.scrolling.mouse_scroll_animations.insert(
                    terminal_id.raw,
                    animation,
                ),
                ..self.scrolling
            },
            ..self
        }.asking_scroll_frame()
    }

    /// With one animation played on.
    pub open spec fn playing(self, terminal_id: TerminalId, step: ScrollStep) -> Moved {
        if self.scrolling.mouse_scroll_animations.contains_key(terminal_id.raw) {
            self.wheeling(
                terminal_id,
                self.scrolling.mouse_scroll_animations[terminal_id.raw].pane_id,
                step,
            )
        } else {
            Moved { view: self, request: None, repaint: false }
        }
    }

    /// With a frame of animations done.
    pub open spec fn frame_played(self, finished: Set<u128>, repaint: bool) -> Self {
        let left = crate::view::ViewModel {
            scrolling: crate::view::ScrollingModel {
                mouse_scroll_animations: self.scrolling.mouse_scroll_animations.remove_keys(finished),
                ..self.scrolling
            },
            ..self
        }.notified_if(repaint);
        if left.scrolling.mouse_scroll_animations.dom().len() == 0 {
            left
        } else {
            left.asking_scroll_frame()
        }
    }
}

impl WorkspaceView {
    fn position_of(&self, terminal_id: TerminalId) -> (position: i64)
        ensures
            position == self@.position_of(terminal_id),
    {
        match self.terminal_snapshot_for(terminal_id) {
            Some(snapshot) => snapshot.viewport_position,
            None => 0,
        }
    }

    /// Moves a terminal to a position.
    pub fn scroll_terminal_to(&mut self, terminal_id: TerminalId, target: i64)
        ensures
            final(self)@ == old(self)@.scrolling_to(terminal_id, target),
            old(self)@.wf() ==> final(self)@.wf(),
    {
        if !self.has_application {
            return;
        }
        let connection_id = self.active_connection;
        self.ask(Effect::PinViewport { connection_id, terminal_id, pinned: target != 0 });
        self.ask(Effect::ScrollTo { connection_id, terminal_id, target });
    }

    /// Moves a terminal by some rows.
    pub fn scroll_terminal_by(&mut self, terminal_id: TerminalId, delta: i64)
        ensures
            final(self)@ == old(self)@.scrolling_by(terminal_id, delta),
            old(self)@.wf() ==> final(self)@.wf(),
    {
        if !self.has_application {
            return;
        }
        let connection_id = self.active_connection;
        let expected: i128 = self.position_of(terminal_id) as i128 + delta as i128;
        if expected > 0 {
            self.ask(Effect::PinViewport { connection_id, terminal_id, pinned: true });
        }
        self.ask(Effect::ScrollBy { connection_id, terminal_id, delta });
    }

    /// Moves a terminal to a position, then by some rows, as asked.
    pub fn apply_local_viewport(
        &mut self,
        terminal_id: TerminalId,
        target: Option<i64>,
        delta: Option<i64>,
    )
        ensures
            ({
                let moved = match target {
                    Some(target) => old(self)@.scrolling_to(terminal_id, target),
                    None => old(self)@,
                };
                final(self)@ == match delta {
                    Some(delta) => moved.scrolling_by(terminal_id, delta),
                    None => moved,
                }
            }),
            old(self)@.wf() ==> final(self)@.wf(),
    {
        if let Some(target) = target {
            self.scroll_terminal_to(terminal_id, target);
        }
        if let Some(delta) = delta {
            self.scroll_terminal_by(terminal_id, delta);
        }
    }

    fn scroll_state(&self, terminal_id: TerminalId) -> (state: TerminalScrollState)
        ensures
            state == self@.scroll_state(terminal_id),
    {
        match self.scrolling.scroll_accumulators.get(&terminal_id.raw) {
            Some(state) => *state,
            None => TerminalScrollState::new(self.position_of(terminal_id)),
        }
    }

    fn set_scroll_state(&mut self, terminal_id: TerminalId, state: TerminalScrollState)
        ensures
            final(self)@ == old(self)@.with_scroll_state(terminal_id, state),
    {
        self.scrolling.scroll_accumulators.insert(terminal_id.raw, state);
    }

    /// Drops all that would move a terminal later; tells whether a position
    /// was still to be asked for.
    fn cancel_scrolling(&mut self, terminal_id: TerminalId) -> (had_request: bool)
        ensures
            final(self)@ == old(self)@.at_rest(terminal_id),
            had_request == old(self)@.scrolling.pending_viewport_requests.contains_key(terminal_id.raw),
            old(self)@.wf() ==> final(self)@.wf(),
    {
        self.selection = None;
        self.press.selection_autoscroll = None;
        self.scrolling.active_trackpad_scrolls.remove(&terminal_id.raw);
        self.scrolling.mouse_scroll_animations.remove(&terminal_id.raw);
        self.scrolling.pending_viewport_requests.remove(&terminal_id.raw).is_some()
    }

    /// Takes a terminal back to its live bottom before input reaches it.
    pub fn focus_terminal_live_bottom(&mut self, terminal_id: TerminalId)
        ensures
            final(self)@ == old(self)@.at_live_bottom(terminal_id),
            old(self)@.wf() ==> final(self)@.wf(),
    {
        let state = self.scroll_state(terminal_id);
        let had_request = self.cancel_scrolling(terminal_id);
        let was_scrolled = had_request || state.observed_viewport_position != 0
            || !state.visual_unacked_rows.equals(RowOffset::zero())
            || state.requested_viewport_position != 0;
        if !was_scrolled {
            self.set_scroll_state(terminal_id, state);
            return;
        }
        self.set_scroll_state(
            terminal_id,
            TerminalScrollState {
                observed_viewport_position: state.observed_viewport_position,
                visual_unacked_rows: RowOffset::Rows(
                    crate::arith::saturating_sub_i64(0, state.observed_viewport_position),
                ),
                requested_viewport_position: 0,
            },
        );
        self.scroll_terminal_to(terminal_id, 0);
        self.notify();
    }

    /// Asks for the live bottom of a terminal after output, and leaves the
    /// picture where the user reads.
    pub fn focus_terminal_live_bottom_guarded(&mut self, terminal_id: TerminalId)
        ensures
            final(self)@ == old(self)@.guarded(terminal_id),
            old(self)@.wf() ==> final(self)@.wf(),
    {
        let state = self.scroll_state(terminal_id);
        let position: i64 = self.position_of(terminal_id);
        self.cancel_scrolling(terminal_id);
        if position == 0 {
            self.set_scroll_state(terminal_id, state);
            return;
        }
        self.set_scroll_state(
            terminal_id,
            TerminalScrollState {
                observed_viewport_position: state.observed_viewport_position,
                visual_unacked_rows: RowOffset::zero(),
                requested_viewport_position: 0,
            },
        );
        self.scroll_terminal_to(terminal_id, 0);
        self.notify();
    }

    /// The terminals that the tab shown projects.
    pub fn displayed_terminals(&self) -> (terminals: BTreeSet<u128>)
        ensures
            terminals@ == self@.displayed(),
    {
        let mut terminals: BTreeSet<u128> = BTreeSet::new();
        if let Some(workspace) = self.selected_workspace_dump() {
            if let Some(tab) = active_tab(workspace) {
                collect_terminal_ids(&tab.tree, &mut terminals);
                assert(terminals@ =~= self@.displayed());
            }
        }
        terminals
    }

    /// Takes notice of output of a terminal; tells whether its grid is wanted
    /// now. Output does not move a terminal whose history is being read.
    pub fn begin_terminal_event(&mut self, terminal_id: TerminalId) -> (wanted: bool)
        ensures
            final(self)@ == old(self)@.output_announced(terminal_id),
            wanted == old(self)@.wants_grid(terminal_id),
            old(self)@.wf() ==> final(self)@.wf(),
    {
        reveal(crate::view::grids_are_sound);
        if !self.has_application {
            return false;
        }
        if !self.displayed_terminals().contains(&terminal_id.raw) {
            self.terminal_snapshots.remove(&terminal_id.raw);
            return false;
        }
        if self.position_of(terminal_id) > 0 {
            self.focus_terminal_live_bottom_guarded(terminal_id);
        }
        true
    }

    /// Takes the grid of a terminal after output. The selection stays on the
    /// rows that it covers, and the picture where it is.
    pub fn finish_terminal_event(
        &mut self,
        terminal_id: TerminalId,
        grid: Option<Arc<TerminalSnapshot>>,
        rebased: RowOffset,
    )
        requires
            grid is Some ==> grid->0.wf() && crate::scroll::is_paintable(*grid->0),
        ensures
            final(self)@ == old(self)@.output_arrived(terminal_id, grid, rebased),
            old(self)@.wf() ==> final(self)@.wf(),
    {
        reveal(crate::view::grids_are_sound);
        match grid {
            Some(snapshot) => {
                let previous: Option<Arc<TerminalSnapshot>> = match self.terminal_snapshots.get(
                    &terminal_id.raw,
                ) {
                    Some(previous) => Some(crate::terminal::share(previous)),
                    None => None,
                };
                if let Some(previous) = previous {
                    reconcile_local_viewport_snapshot(
                        &mut self.selection,
                        &mut self.scrolling.scroll_accumulators,
                        terminal_id,
                        &previous,
                        &snapshot,
                        rebased,
                    );
                }
                self.terminal_snapshots.insert(terminal_id.raw, snapshot);
            },
            None => {
                self.terminal_snapshots.remove(&terminal_id.raw);
                if let Some(selection) = self.selection {
                    if selection.terminal_id == terminal_id {
                        self.selection = None;
                    }
                }
            },
        }
    }

    /// Moves the picture of a terminal, up to the ends of its history that
    /// are known. Gives the position to ask for, and whether to draw.
    pub fn accumulate_terminal_scroll(&mut self, terminal_id: TerminalId, step: &ScrollStep) -> (outcome:
        (Option<i64>, bool))
        requires
            step.wf(),
        ensures
            final(self)@ == old(self)@.accumulating(terminal_id, *step).view,
            outcome.0 == old(self)@.accumulating(terminal_id, *step).request,
            outcome.1 == old(self)@.accumulating(terminal_id, *step).repaint,
            old(self)@.wf() ==> final(self)@.wf(),
    {
        let (at_history_start, at_live_bottom): (bool, bool) = match self.terminal_snapshot_for(
            terminal_id,
        ) {
            Some(snapshot) => (snapshot.rows_before.len() == 0, snapshot.rows_after.len() == 0),
            None => (false, false),
        };
        let mut state = self.scroll_state(terminal_id);
        let outcome = state.accumulate_with_boundaries(step, at_history_start, at_live_bottom);
        self.set_scroll_state(terminal_id, state);
        outcome
    }

    /// Asks for a position with the next frame.
    pub fn queue_terminal_viewport_request(
        &mut self,
        terminal_id: TerminalId,
        pane_id: PaneId,
        target: i64,
    )
        ensures
            final(self)@ == old(self)@.queueing(terminal_id, pane_id, target),
            old(self)@.wf() ==> final(self)@.wf(),
    {
        record_latest_viewport_request(
            &mut self.scrolling.pending_viewport_requests,
            terminal_id,
            pane_id,
            target,
        );
        if self.scrolling.viewport_request_frame_pending {
            return;
        }
        self.scrolling.viewport_request_frame_pending = true;
        self.ask(Effect::RequestViewportFrame);
    }

    /// Moves the picture of a terminal and asks for what that takes; tells
    /// whether to draw.
    pub fn wheel_terminal(&mut self, terminal_id: TerminalId, pane_id: PaneId, step: &ScrollStep) -> (repaint:
        bool)
        requires
            step.wf(),
        ensures
            final(self)@ == old(self)@.wheeling(terminal_id, pane_id, *step).view,
            repaint == old(self)@.wheeling(terminal_id, pane_id, *step).repaint,
            old(self)@.wf() ==> final(self)@.wf(),
    {
        let (request, repaint) = self.accumulate_terminal_scroll(terminal_id, step);
        if let Some(target) = request {
            self.queue_terminal_viewport_request(terminal_id, pane_id, target);
        }
        repaint
    }

    /// Sends the requests that wait for a frame.
    pub fn run_viewport_frame(&mut self)
        ensures
            final(self)@ == old(self)@.viewport_frame(),
            old(self)@.wf() ==> final(self)@.wf(),
    {
        self.scrolling.viewport_request_frame_pending = false;
        let mut requests: BTreeMap<u128, (PaneId, i64)> = BTreeMap::new();
        std::mem::swap(&mut requests, &mut self.scrolling.pending_viewport_requests);
        let keys = keys_of(&requests);
        let ghost start = self@;
        let mut i: usize = 0;
        while i < keys.len()
            invariant
                i <= keys.len(),
                crate::tables::lists_keys(keys@, requests@.dom()),
                self@ == start.sending(keys@.take(i as int), requests@),
                start.wf() ==> self@.wf(),
            decreases keys.len() - i,
        {
            let key: u128 = keys[i];
            assert(keys@.take(i + 1).drop_last() =~= keys@.take(i as int));
            assert(keys@.to_set().contains(key));
            if let Some((_, target)) = requests.get(&key) {
                self.scroll_terminal_to(TerminalId { raw: key }, *target);
            }
            i += 1;
        }
        assert(keys@.take(i as int) =~= keys@);
    }

    /// A position stopped at the ends of the history that are known.
    pub fn clamp_terminal_visual_position(&self, terminal_id: TerminalId, position: RowOffset) -> (within:
        RowOffset)
        ensures
            within == self@.position_within(terminal_id, position),
    {
        match self.terminal_snapshot_for(terminal_id) {
            Some(snapshot) => {
                let base: i64 = snapshot.viewport_position;
                if snapshot.history_len == 0 && position.is_above(base) {
                    RowOffset::Rows(base)
                } else if snapshot.rows_after.len() == 0 && position.is_below(base) {
                    RowOffset::Rows(base)
                } else {
                    position
                }
            },
            None => position,
        }
    }

    /// Takes a wheel notch. `negligible` tells that it leads nowhere, `step`
    /// the part that is moved at once. Tells whether to draw.
    pub fn notch_mouse_scroll(
        &mut self,
        terminal_id: TerminalId,
        pane_id: PaneId,
        negligible: bool,
        step: &ScrollStep,
    ) -> (repaint: bool)
        requires
            step.wf(),
        ensures
            final(self)@ == old(self)@.notching(terminal_id, pane_id, negligible, *step).view,
            repaint == old(self)@.notching(terminal_id, pane_id, negligible, *step).repaint,
            old(self)@.wf() ==> final(self)@.wf(),
    {
        if negligible {
            self.scrolling.mouse_scroll_animations.remove(&terminal_id.raw);
            return false;
        }
        self.wheel_terminal(terminal_id, pane_id, step)
    }

    /// Plays the rest of a wheel notch with the frames to come.
    pub fn begin_mouse_scroll_animation(
        &mut self,
        terminal_id: TerminalId,
        animation: MouseScrollAnimation,
    )
        ensures
            final(self)@ == old(self)@.animating(terminal_id, animation),
            old(self)@.wf() ==> final(self)@.wf(),
    {
        self.scrolling.mouse_scroll_animations.insert(terminal_id.raw, animation);
        self.request_mouse_scroll_frame();
    }

    pub fn request_mouse_scroll_frame(&mut self)
        ensures
            final(self)@ == old(self)@.asking_scroll_frame(),
            old(self)@.wf() ==> final(self)@.wf(),
    {
        if self.scrolling.mouse_scroll_frame_pending {
            return;
        }
        self.scrolling.mouse_scroll_frame_pending = true;
        self.ask(Effect::RequestMouseScrollFrame);
    }

    /// Takes a frame of animations; gives the terminals that are animated.
    pub fn begin_mouse_scroll_frame(&mut self) -> (terminals: Vec<u128>)
        ensures
            final(self)@ == (crate::view::ViewModel {
                scrolling: crate::view::ScrollingModel {
                    mouse_scroll_frame_pending: false,
                    ..old(self)@.scrolling
                },
                ..old(self)@
            }),
            terminals@ == crate::tables::in_order(old(self)@.scrolling.mouse_scroll_animations.dom()),
            crate::tables::lists_keys(terminals@, old(self)@.scrolling.mouse_scroll_animations.dom()),
            old(self)@.wf() ==> final(self)@.wf(),
    {
        self.scrolling.mouse_scroll_frame_pending = false;
        keys_of(&self.scrolling.mouse_scroll_animations)
    }

    /// Plays one animation on; tells whether to draw.
    pub fn play_mouse_scroll(&mut self, terminal_id: TerminalId, step: &ScrollStep) -> (repaint:
        bool)
        requires
            step.wf(),
        ensures
            final(self)@ == old(self)@.playing(terminal_id, *step).view,
            repaint == old(self)@.playing(terminal_id, *step).repaint,
            old(self)@.wf() ==> final(self)@.wf(),
    {
        let pane_id: PaneId = match self.scrolling.mouse_scroll_animations.get(&terminal_id.raw) {
            Some(animation) => animation.pane_id,
            None => {
                return false;
            },
        };
        self.wheel_terminal(terminal_id, pane_id, step)
    }

    /// Ends a frame of animations: those that are finished are dropped, the
    /// others go on with the next frame.
    pub fn finish_mouse_scroll_frame(&mut self, finished: &Vec<u128>, repaint: bool)
        ensures
            final(self)@ == old(self)@.frame_played(finished@.to_set(), repaint),
            old(self)@.wf() ==> final(self)@.wf(),
    {
        drop_keys(&mut self.scrolling.mouse_scroll_animations, finished);
        if repaint {
            self.notify();
        }
        if !self.scrolling.mouse_scroll_animations.is_empty() {
            self.request_mouse_scroll_frame();
        }
    }
}

/// Input takes a terminal to its live bottom for good: nothing that was under
/// way moves it back, and the position that is asked for is the bottom.
pub proof fn law_input_returns_to_the_bottom(
    view: crate::view::ViewModel,
    terminal_id: TerminalId,
)
    ensures
        ({
            let after = view.at_live_bottom(terminal_id);
            &&& !after.scrolling.pending_viewport_requests.contains_key(terminal_id.raw)
            &&& !after.scrolling.mouse_scroll_animations.contains_key(terminal_id.raw)
            &&& !after.scrolling.active_trackpad_scrolls.contains(terminal_id.raw)
            &&& after.press.selection_autoscroll is None
            &&& after.scroll_state(terminal_id).requested_viewport_position == 0
        }),
{
}

/// At the live bottom input moves and draws nothing.
pub proof fn law_bottom_input_is_quiet(view: crate::view::ViewModel, terminal_id: TerminalId)
    requires
        !view.is_scrolled(terminal_id),
    ensures
        view.at_live_bottom(terminal_id).effects == view.effects,
{
}

/// Output leaves the picture alone where history is read: after it the
/// position observed is the one before and nothing is painted away from it.
pub proof fn law_output_keeps_the_reading_position(
    view: crate::view::ViewModel,
    terminal_id: TerminalId,
)
    requires
        view.wants_grid(terminal_id),
        view.position_of(terminal_id) > 0,
    ensures
        ({
            let before = view.scroll_state(terminal_id);
            let after = view.output_announced(terminal_id).scroll_state(terminal_id);
            &&& after.observed_viewport_position == before.observed_viewport_position
            &&& after.visual_unacked_rows == RowOffset::Rows(0)
        }),
{
}

/// Other terminals do not notice what happens to one.
pub proof fn law_terminals_scroll_on_their_own(
    view: crate::view::ViewModel,
    terminal_id: TerminalId,
    pane_id: PaneId,
    step: ScrollStep,
    other: TerminalId,
)
    requires
        other != terminal_id,
    ensures
        view.wheeling(terminal_id, pane_id, step).view.scroll_state(other) == view.scroll_state(
            other,
        ),
        view.at_live_bottom(terminal_id).scroll_state(other) == view.scroll_state(other),
        view.guarded(terminal_id).scroll_state(other) == view.scroll_state(other),
{
}

/// However often a position is asked for between two frames, only the last
/// one is sent.
pub proof fn law_one_request_per_frame(
    view: crate::view::ViewModel,
    terminal_id: TerminalId,
    pane_id: PaneId,
    first: i64,
    second: i64,
)
    ensures
        view.queueing(terminal_id, pane_id, first).queueing(terminal_id, pane_id, second)
            == view.queueing(terminal_id, pane_id, second),
{
    let twice = view.queueing(terminal_id, pane_id, first).queueing(terminal_id, pane_id, second);
    let once = view.queueing(terminal_id, pane_id, second);
    assert(twice.scrolling.pending_viewport_requests =~= once.scrolling.pending_viewport_requests);
}

/// A scroll is asked for on the active server. A terminal is held where it is
/// while it is scrolled into its history, and follows its output at the bottom.
pub proof fn law_scrolls_hold_the_history(
    view: crate::view::ViewModel,
    terminal_id: TerminalId,
    target: i64,
    delta: i64,
)
    requires
        view.has_application,
    ensures
        view.scrolling_to(terminal_id, target).effects == view.effects.push(
            crate::command::EffectModel::PinViewport {
                connection_id: view.active_connection,
                terminal_id,
                pinned: target != 0,
            },
        ).push(
            crate::command::EffectModel::ScrollTo {
                connection_id: view.active_connection,
                terminal_id,
                target,
            },
        ),
        view.scrolling_by(terminal_id, delta).effects.last()
            == (crate::command::EffectModel::ScrollBy {
            connection_id: view.active_connection,
            terminal_id,
            delta,
        }),
        view.position_of(terminal_id) + delta > 0 ==> view.scrolling_by(terminal_id, delta).effects
            == view.effects.push(
            crate::command::EffectModel::PinViewport {
                connection_id: view.active_connection,
                terminal_id,
                pinned: true,
            },
        ).push(
            crate::command::EffectModel::ScrollBy {
                connection_id: view.active_connection,
                terminal_id,
                delta,
            },
        ),
        view.position_of(terminal_id) + delta <= 0 ==> view.scrolling_by(
            terminal_id,
            delta,
        ).effects.len() == view.effects.len() + 1,
{
}

/// Input to a terminal that is scrolled brings it to the bottom: the picture
/// is moved down by what was scrolled, the newest rows are asked for, and
/// nothing stays selected or in motion.
pub proof fn law_input_moves_the_picture_down(
    view: crate::view::ViewModel,
    terminal_id: TerminalId,
    state: TerminalScrollState,
)
    requires
        view.has_application,
        view.scrolling.scroll_accumulators.contains_key(terminal_id.raw),
        view.scrolling.scroll_accumulators[terminal_id.raw] == state,
        state.observed_viewport_position > 0,
    ensures
        ({
            let after = view.at_live_bottom(terminal_id);
            let moved = after.scrolling.scroll_accumulators[terminal_id.raw];
            &&& moved.visual_unacked_rows.whole() == -state.observed_viewport_position
            &&& moved.requested_viewport_position == 0
            &&& moved.observed_viewport_position == state.observed_viewport_position
            &&& after.selection is None
            &&& !after.scrolling.pending_viewport_requests.contains_key(terminal_id.raw)
            &&& !after.scrolling.mouse_scroll_animations.contains_key(terminal_id.raw)
            &&& !after.scrolling.active_trackpad_scrolls.contains(terminal_id.raw)
            &&& after.effects == view.effects.push(
                crate::command::EffectModel::PinViewport {
                    connection_id: view.active_connection,
                    terminal_id,
                    pinned: false,
                },
            ).push(
                crate::command::EffectModel::ScrollTo {
                    connection_id: view.active_connection,
                    terminal_id,
                    target: 0,
                },
            ).push(crate::command::EffectModel::Notify)
        }),
{
}

/// Grids are kept of the terminals of the active tab alone; output of others
/// drops theirs. Output of a terminal that is scrolled into its history is read
/// at the bottom again.
pub proof fn law_output_is_kept_where_it_shows(
    view: crate::view::ViewModel,
    workspace: crate::model::WorkspaceDump,
    tab: crate::model::TabDump,
    terminal_id: TerminalId,
)
    requires
        view.has_application,
        view.selected() == Some(workspace),
        workspace.active() == Some(tab),
    ensures
        view.wants_grid(terminal_id) == tab.tree.terminals().contains(terminal_id.raw),
        !tab.tree.terminals().contains(terminal_id.raw) ==> {
            let after = view.output_announced(terminal_id);
            &&& !after.terminal_snapshots.contains_key(terminal_id.raw)
            &&& after.effects == view.effects
            &&& after.selection == view.selection
        },
        tab.tree.terminals().contains(terminal_id.raw) && view.position_of(terminal_id) <= 0
            ==> view.output_announced(terminal_id) == view,
        tab.tree.terminals().contains(terminal_id.raw) && view.position_of(terminal_id) > 0 ==> {
            let after = view.output_announced(terminal_id);
            &&& after.effects.len() == view.effects.len() + 3
            &&& after.effects[view.effects.len() as int + 1] == crate::command::EffectModel::ScrollTo {
                connection_id: view.active_connection,
                terminal_id,
                target: 0,
            }
            &&& after.selection is None
        },
{
}

/// A grid that arrives is the terminal's from then on; where none arrives, none
/// is left, nor a selection in it.
pub proof fn law_arriving_grids_are_shown(
    view: crate::view::ViewModel,
    terminal_id: TerminalId,
    grid: Arc<TerminalSnapshot>,
    rebased: RowOffset,
)
    ensures
        view.output_arrived(terminal_id, Some(grid), rebased).terminal_snapshot(terminal_id) == Some(
            *grid,
        ),
        view.terminal_snapshot(terminal_id) is None ==> view.output_arrived(
            terminal_id,
            Some(grid),
            rebased,
        ).selection == view.selection,
        ({
            let gone = view.output_arrived(terminal_id, None, rebased);
            &&& gone.terminal_snapshot(terminal_id) is None
            &&& view.selection is Some && view.selection->0.terminal_id == terminal_id
                ==> gone.selection is None
            &&& view.selection is Some && view.selection->0.terminal_id != terminal_id
                ==> gone.selection == view.selection
        }),
{
}

/// The rows above and below a grid tell whether it is at an end of its history.
pub proof fn law_grids_without_rows_around_are_at_the_end(
    view: crate::view::ViewModel,
    terminal_id: TerminalId,
    grid: TerminalSnapshot,
    step: ScrollStep,
)
    requires
        view.terminal_snapshot(terminal_id) == Some(grid),
    ensures
        ({
            let moved = view.scroll_state(terminal_id).accumulated(
                step,
                grid.rows_before.len() == 0,
                grid.rows_after.len() == 0,
            );
            &&& view.accumulating(
                terminal_id,
                step,
            ).view.scrolling.scroll_accumulators[terminal_id.raw] == moved.state
            &&& view.accumulating(terminal_id, step).request == moved.request
        }),
{
}

/// A frame asks for every position that was waiting, terminal by terminal.
pub proof fn law_frames_send_what_is_waiting(
    view: crate::view::ViewModel,
    keys: Seq<u128>,
    requests: Map<u128, (PaneId, i64)>,
    index: int,
)
    requires
        view.has_application,
        0 <= index < keys.len(),
    ensures
        ({
            let after = view.sending(keys, requests);
            let start = view.effects.len() + 2 * index;
            &&& after.effects.len() == view.effects.len() + 2 * keys.len()
            &&& after.effects[start] == (crate::command::EffectModel::PinViewport {
                connection_id: view.active_connection,
                terminal_id: TerminalId { raw: keys[index] },
                pinned: requests[keys[index]].1 != 0,
            })
            &&& after.effects[start + 1] == (crate::command::EffectModel::ScrollTo {
                connection_id: view.active_connection,
                terminal_id: TerminalId { raw: keys[index] },
                target: requests[keys[index]].1,
            })
        }),
    decreases keys.len(),
{
    lemma_sending_keeps_the_rest(view, keys, requests);
    lemma_sending_keeps_the_rest(view, keys.drop_last(), requests);
    if index < keys.len() - 1 {
        law_frames_send_what_is_waiting(view, keys.drop_last(), requests, index);
    }
}

proof fn lemma_sending_keeps_the_rest(
    view: crate::view::ViewModel,
    keys: Seq<u128>,
    requests: Map<u128, (PaneId, i64)>,
)
    requires
        view.has_application,
    ensures
        ({
            let after = view.sending(keys, requests);
            &&& after.has_application
            &&& after.active_connection == view.active_connection
            &&& after.scrolling == view.scrolling
            &&& after.effects.len() == view.effects.len() + 2 * keys.len()
        }),
    decreases keys.len(),
{
    if keys.len() > 0 {
        lemma_sending_keeps_the_rest(view, keys.drop_last(), requests);
    }
}

/// After a frame nothing waits, and the next request asks for a frame again.
pub proof fn law_nothing_waits_behind_a_frame(view: crate::view::ViewModel)
    requires
        view.has_application,
    ensures
        ({
            let keys = crate::tables::in_order(view.scrolling.pending_viewport_requests.dom());
            let after = view.viewport_frame();
            &&& after.scrolling.pending_viewport_requests.dom() == Set::<u128>::empty()
            &&& !after.scrolling.viewport_request_frame_pending
            &&& after.effects.len() == view.effects.len() + 2 * keys.len()
        }),
{
    let emptied = crate::view::ViewModel {
        scrolling: crate::view::ScrollingModel {
            viewport_request_frame_pending: false,
            pending_viewport_requests: Map::empty(),
            ..view.scrolling
        },
        ..view
    };
    lemma_sending_keeps_the_rest(
        emptied,
        crate::tables::in_order(view.scrolling.pending_viewport_requests.dom()),
        view.scrolling.pending_viewport_requests,
    );
}

/// A position is reached for within the history: not above the grid where there
/// is none, nor below it where there are no rows.
pub proof fn law_positions_stay_in_the_history(
    view: crate::view::ViewModel,
    terminal_id: TerminalId,
    grid: TerminalSnapshot,
    position: RowOffset,
)
    requires
        view.terminal_snapshot(terminal_id) == Some(grid),
    ensures
        ({
            let reached = view.position_within(terminal_id, position);
            let base = grid.viewport_position * crate::offset::units_per_row();
            &&& grid.history_len == 0 && position.units() > base ==> reached.units() == base
            &&& grid.rows_after.len() == 0 && position.units() < base ==> reached.units() == base
            &&& grid.history_len > 0 && grid.rows_after.len() > 0 ==> reached == position
            &&& position.units() == base ==> reached == position
            &&& grid.history_len > 0 && position.units() > base ==> reached == position
            &&& grid.rows_after.len() > 0 && position.units() < base ==> reached == position
        }),
{
    crate::offset::law_units_order_distances(position, grid.viewport_position as int);
}

/// A turn of the wheel that reaches a new row asks for it with the next frame;
/// a negligible one ends the animation.
pub proof fn law_wheels_ask_with_the_next_frame(
    view: crate::view::ViewModel,
    terminal_id: TerminalId,
    pane_id: PaneId,
    step: ScrollStep,
)
    ensures
        ({
            let moved = view.accumulating(terminal_id, step);
            let wheeled = view.wheeling(terminal_id, pane_id, step);
            &&& wheeled.request == moved.request
            &&& wheeled.repaint == moved.repaint
            &&& moved.request is Some
                ==> wheeled.view.scrolling.pending_viewport_requests.contains_key(terminal_id.raw)
                && wheeled.view.scrolling.pending_viewport_requests[terminal_id.raw] == (
                pane_id,
                moved.request->0,
            ) && wheeled.view.scrolling.viewport_request_frame_pending
            &&& moved.request is None ==> wheeled.view.scrolling.pending_viewport_requests
                == view.scrolling.pending_viewport_requests
            &&& !view.notching(
                terminal_id,
                pane_id,
                true,
                step,
            ).view.scrolling.mouse_scroll_animations.contains_key(terminal_id.raw)
            &&& view.notching(terminal_id, pane_id, false, step) == wheeled
        }),
{
}

/// Frames go on while something is animated, and are asked for once.
pub proof fn law_animations_ask_for_frames(
    view: crate::view::ViewModel,
    terminal_id: TerminalId,
    animation: MouseScrollAnimation,
)
    ensures
        ({
            let after = view.animating(terminal_id, animation);
            &&& after.scrolling.mouse_scroll_animations.contains_key(terminal_id.raw)
            &&& after.scrolling.mouse_scroll_animations[terminal_id.raw] == animation
            &&& after.scrolling.mouse_scroll_frame_pending
            &&& after.effects == (if view.scrolling.mouse_scroll_frame_pending {
                view.effects
            } else {
                view.effects.push(crate::command::EffectModel::RequestMouseScrollFrame)
            })
            &&& view.scrolling.mouse_scroll_animations.dom().len() == 0
                && !view.scrolling.mouse_scroll_frame_pending ==> view.frame_played(
                Set::empty(),
                false,
            ).effects == view.effects
        }),
{
    assert(view.scrolling.mouse_scroll_animations.remove_keys(Set::empty())
        =~= view.scrolling.mouse_scroll_animations);
}

/// An animation moves its terminal for the pane that it was started in; without
/// one nothing moves.
pub proof fn law_animations_move_their_terminal(
    view: crate::view::ViewModel,
    terminal_id: TerminalId,
    animation: MouseScrollAnimation,
    step: ScrollStep,
)
    ensures
        view.scrolling.mouse_scroll_animations.contains_key(terminal_id.raw)
            && view.scrolling.mouse_scroll_animations[terminal_id.raw] == animation ==> view.playing(
            terminal_id,
            step,
        ) == view.wheeling(terminal_id, animation.pane_id, step),
        !view.scrolling.mouse_scroll_animations.contains_key(terminal_id.raw) ==> view.playing(
            terminal_id,
            step,
        ).view == view && view.playing(terminal_id, step).request is None && !view.playing(
            terminal_id,
            step,
        ).repaint,
{
}

/// A frame ends the animations that have come to their end, draws the window
/// where something moved, and asks for the next one while others go on.
pub proof fn law_frames_end_finished_animations(
    view: crate::view::ViewModel,
    finished: Set<u128>,
    repaint: bool,
    key: u128,
)
    ensures
        ({
            let after = view.frame_played(finished, repaint);
            let drawn = if repaint {
                view.effects.push(crate::command::EffectModel::Notify)
            } else {
                view.effects
            };
            let left = view.scrolling.mouse_scroll_animations.remove_keys(finished);
            &&& after.scrolling.mouse_scroll_animations.contains_key(key)
                <==> view.scrolling.mouse_scroll_animations.contains_key(key) && !finished.contains(
                key,
            )
            &&& left.dom().len() == 0 ==> after.effects == drawn
            &&& left.dom().len() > 0 && !view.scrolling.mouse_scroll_frame_pending ==> after.effects
                == drawn.push(crate::command::EffectModel::RequestMouseScrollFrame)
        }),
{
}

} // verus!
