//! Pressing, moving and releasing the mouse.

use crate::command::AppCommand;
use crate::command::Effect;
use crate::drags::SidebarPointer;
use crate::ids::ConnectionId;
use crate::ids::PaneId;
use crate::ids::TerminalId;
use crate::ids::TransportId;
use crate::keys::terminal_alternate_scroll_input;
use crate::keys::Modifiers;
use crate::mouse::terminal_mouse_button_input;
use crate::mouse::terminal_mouse_input;
use crate::mouse::terminal_scroll_input_kind;
use crate::mouse::terminal_selection_autoscroll_direction;
use crate::mouse::MouseButton;
use crate::mouse::TerminalMousePosition;
use crate::mouse::TerminalScrollInputKind;
use crate::mouse::TouchPhase;
use crate::offset::RowOffset;
use crate::resize::terminal_resize_request_needed;
use crate::resize::TerminalResizeRequest;
use crate::scroll::terminal_scroll_offset_for_snapshot;
use crate::scroll::terminal_selection_endpoint_at;
use crate::scroll::terminal_source_row_at;
use crate::selection::selected_terminal_text;
use crate::selection::selection_bounds;
use crate::selection::terminal_selection_after_click;
use crate::selection::TerminalCellPosition;
use crate::selection::TerminalSelection;
use crate::selection::TerminalSelectionEndpoint;
use crate::terminal::TerminalModes;
use crate::terminal::TerminalSize;
use crate::terminal::TerminalSnapshot;
use crate::view::PointerPosition;
use crate::view::SelectionAutoscroll;
use crate::view::WorkspaceView;
use vstd::prelude::*;

verus! {

/// The pointer over a terminal.
#[derive(Clone, Copy, PartialEq, Eq, Structural, Debug)]
pub struct TerminalPointer {
    /// The cell of the grid under it.
    pub mouse: TerminalMousePosition,
    /// The row of the picture under it, where the terminal was laid out.
    pub painted_row: Option<i32>,
}

/// The pointer relative to the upper and lower edge of a terminal.
#[derive(Clone, Copy, PartialEq, Eq, Structural, Debug)]
pub struct EdgeProximity {
    pub has_height: bool,
    pub near_top: bool,
    pub near_bottom: bool,
}

/// What a movement of the mouse drags.
#[derive(Clone, Copy, PartialEq, Eq, Structural, Debug)]
pub enum DragKind {
    SidebarEdge,
    SidebarRow,
    Divider,
    Window,
    Terminal,
}

/// A turn of the wheel over a pane.
#[derive(Clone, Copy, PartialEq, Eq, Structural, Debug)]
pub struct WheelTurn {
    pub in_pixels: bool,
    pub phase: TouchPhase,
    /// The distance is finite and not zero.
    pub moves: bool,
    /// The distance is more than a row.
    pub more_than_a_row: bool,
    /// The distance in whole lines.
    pub lines: i32,
    pub mouse: TerminalMousePosition,
    pub modifiers: Modifiers,
    /// The modes of the terminal when the pane was drawn.
    pub modes: TerminalModes,
}

/// What is left to do after a turn of the wheel.
#[derive(Clone, Copy, PartialEq, Eq, Structural, Debug)]
pub enum WheelOutcome {
    /// Nothing; the turn is left to others.
    Ignored,
    /// Nothing; the program in the terminal has got the turn.
    Sent,
    /// The terminal is to be moved with an animation.
    Notch { terminal_id: TerminalId },
    /// The terminal is to be moved as far as the fingers did.
    Glide { terminal_id: TerminalId },
}

impl crate::view::ViewModel {
    /// The distance by which the picture of a terminal is moved.
    pub open spec fn painted_offset(self, snapshot: TerminalSnapshot) -> RowOffset {
        crate::scroll::paint_offset(
            if self.scrolling.scroll_accumulators.contains_key(snapshot.terminal_id.raw) {
                self.scrolling.scroll_accumulators[snapshot.terminal_id.raw].visual_unacked_rows
            } else {
                RowOffset::Rows(0)
            },
            snapshot,
        )
    }

    /// The place in a terminal whose picture lies under the pointer.
    #[verifier::opaque]
    pub open spec fn endpoint_under(self, terminal_id: TerminalId, pointer: TerminalPointer) -> Option<
        TerminalSelectionEndpoint,
    > {
        match self.terminal_snapshot(terminal_id) {
            Some(snapshot) => Some(
                crate::scroll::endpoint_at(
                    snapshot,
                    pointer.mouse,
                    crate::scroll::source_row(
                        snapshot.size.lines as int,
                        self.painted_offset(snapshot),
                        pointer.painted_row,
                    ),
                ),
            ),
            None => None,
        }
    }

    pub open spec fn sending_bytes(
        self,
        terminal_id: TerminalId,
        source: Option<PaneId>,
        bytes: Seq<u8>,
    ) -> Self {
        self.enqueueing(crate::command::CommandModel::SendBytes { terminal_id, source, bytes })
    }

    pub open spec fn sending_text(
        self,
        terminal_id: TerminalId,
        source: Option<PaneId>,
        text: Seq<char>,
    ) -> Self {
        self.enqueueing(crate::command::CommandModel::SendText { terminal_id, source, text })
    }

    /// The report of a press that the program in a terminal wants.
    #[verifier::opaque]
    pub open spec fn press_report(
        self,
        terminal_id: TerminalId,
        pointer: TerminalPointer,
        button: MouseButton,
        modifiers: Modifiers,
    ) -> Option<Seq<u8>> {
        match self.terminal_snapshot(terminal_id) {
            Some(snapshot) => if self.config.mouse_reporting && snapshot.modes.mouse_reporting {
                crate::mouse::button_report(
                    pointer.mouse,
                    button,
                    true,
                    false,
                    modifiers,
                    snapshot.modes,
                )
            } else {
                None
            },
            None => None,
        }
    }

    /// With a press reported to the program in a terminal, if it wants it.
    pub open spec fn reporting_press(
        self,
        terminal_id: TerminalId,
        pointer: TerminalPointer,
        button: MouseButton,
        modifiers: Modifiers,
    ) -> Self {
        match self.press_report(terminal_id, pointer, button, modifiers) {
            Some(bytes) => crate::view::ViewModel {
                ime: self.ime.unmarked(),
                press: crate::view::PressModel {
                    reported_mouse: Some((terminal_id, button)),
                    last_reported_mouse_cell: match self.endpoint_under(terminal_id, pointer) {
                        Some(endpoint) => Some((terminal_id, endpoint.position)),
                        None => None,
                    },
                    ..self.press
                },
                ..self
            }.sending_bytes(terminal_id, None, bytes).notified(),
            None => self,
        }
    }

    /// With a selection begun or extended by a click.
    pub open spec fn selecting_from(
        self,
        terminal_id: TerminalId,
        pointer: TerminalPointer,
        shift_held: bool,
    ) -> Self {
        match self.endpoint_under(terminal_id, pointer) {
            Some(endpoint) => if self.config.selection {
                crate::view::ViewModel {
                    selection: Some(
                        crate::selection::selection_after_click(
                            self.selection,
                            terminal_id,
                            endpoint,
                            shift_held,
                        ),
                    ),
                    press: crate::view::PressModel {
                        selection_autoscroll: None,
                        dragging_terminal: Some(terminal_id),
                        ..self.press
                    },
                    ..self
                }.without_ime().notified()
            } else {
                self
            },
            None => self,
        }
    }

    /// The rows to scroll while a selection is dragged to an edge. There has
    /// to be more to see, and a full screen program must not own the screen.
    pub open spec fn autoscroll_delta(
        self,
        terminal_id: TerminalId,
        edge: Option<EdgeProximity>,
    ) -> Option<i64> {
        if crate::model::pi_runs_on(self.snapshot, terminal_id) {
            None
        } else {
            match (self.terminal_snapshot(terminal_id), edge) {
                (Some(snapshot), Some(edge)) => match crate::mouse::autoscroll_direction(
                    edge.has_height,
                    edge.near_top,
                    edge.near_bottom,
                ) {
                    Some(delta) => if (if delta > 0 {
                        snapshot.rows_before.len() == 0
                    } else {
                        snapshot.rows_after.len() == 0
                    }) {
                        None
                    } else {
                        Some(delta)
                    },
                    None => None,
                },
                _ => None,
            }
        }
    }

    /// With the head of the selection in a terminal moved to the pointer.
    pub open spec fn selecting_to(self, terminal_id: TerminalId, pointer: TerminalPointer) -> Self {
        match (self.endpoint_under(terminal_id, pointer), self.selection) {
            (Some(endpoint), Some(selection)) => if selection.terminal_id == terminal_id
                && selection.head != endpoint {
                crate::view::ViewModel {
                    selection: Some(TerminalSelection { head: endpoint, ..selection }),
                    ..self
                }.notified()
            } else {
                self
            },
            _ => self,
        }
    }

    pub open spec fn asking_autoscroll_frame(self) -> Self {
        if self.press.selection_autoscroll_frame_pending {
            self
        } else {
            crate::view::ViewModel {
                press: crate::view::PressModel {
                    selection_autoscroll_frame_pending: true,
                    ..self.press
                },
                ..self
            }.asking(
                crate::command::EffectModel::RequestAutoscrollFrame,
            )
        }
    }

    /// With a frame come while a selection is held at an edge.
    pub open spec fn autoscroll_frame(
        self,
        edge: Option<EdgeProximity>,
        pointer: TerminalPointer,
    ) -> Self {
        let come = crate::view::ViewModel {
            press: crate::view::PressModel {
                selection_autoscroll_frame_pending: false,
                ..self.press
            },
            ..self
        };
        match self.press.selection_autoscroll {
            None => come,
            Some(autoscroll) => {
                let ended = crate::view::ViewModel {
                    press: crate::view::PressModel { selection_autoscroll: None, ..come.press },
                    ..come
                };
                if self.press.dragging_terminal != Some(autoscroll.terminal_id) {
                    ended
                } else {
                    match self.autoscroll_delta(autoscroll.terminal_id, edge) {
                        Some(delta) => come.scrolling_by(
                            autoscroll.terminal_id,
                            delta,
                        ).selecting_to(autoscroll.terminal_id, pointer).asking_autoscroll_frame(),
                        None => ended,
                    }
                }
            },
        }
    }

    /// The report of a movement that the program in a terminal wants. A cell
    /// is reported once.
    #[verifier::opaque]
    pub open spec fn motion_report(
        self,
        pressed: Option<MouseButton>,
        modifiers: Modifiers,
        pointer: TerminalPointer,
    ) -> Option<Seq<u8>> {
        match self.press.reported_mouse {
            Some((terminal_id, button)) => match (
                self.terminal_snapshot(terminal_id),
                self.endpoint_under(terminal_id, pointer),
            ) {
                (Some(snapshot), Some(endpoint)) => if pressed == Some(button) && (
                snapshot.modes.mouse_motion || snapshot.modes.mouse_drag)
                    && self.press.last_reported_mouse_cell != Some((terminal_id, endpoint.position)) {
                    crate::mouse::button_report(
                        pointer.mouse,
                        button,
                        true,
                        true,
                        modifiers,
                        snapshot.modes,
                    )
                } else {
                    None
                },
                _ => None,
            },
            None => None,
        }
    }

    /// With a movement reported to the program in a terminal.
    pub open spec fn reporting_motion(
        self,
        pressed: Option<MouseButton>,
        modifiers: Modifiers,
        pointer: TerminalPointer,
    ) -> Self {
        match self.motion_report(pressed, modifiers, pointer) {
            Some(bytes) => {
                let terminal_id = (self.press.reported_mouse->0).0;
                crate::view::ViewModel {
                    press: crate::view::PressModel {
                        last_reported_mouse_cell: Some(
                            (terminal_id, self.endpoint_under(terminal_id, pointer)->0.position),
                        ),
                        ..self.press
                    },
                    ..self
                }.sending_bytes(terminal_id, None, bytes).asking(crate::command::EffectModel::StopPropagation)
            },
            None => self,
        }
    }

    /// With the mouse moved over a terminal that has the button.
    pub open spec fn moving_over_terminal(
        self,
        position: PointerPosition,
        pressed: Option<MouseButton>,
        modifiers: Modifiers,
        pointer: TerminalPointer,
        edge: Option<EdgeProximity>,
    ) -> Self {
        let idle = crate::view::ViewModel {
            press: crate::view::PressModel { selection_autoscroll: None, ..self.press },
            ..self
        };
        if self.press.reported_mouse is Some {
            idle.reporting_motion(pressed, modifiers, pointer)
        } else {
            match self.press.dragging_terminal {
                None => self,
                Some(terminal_id) => if pressed != Some(MouseButton::Left) {
                    idle
                } else {
                    match self.autoscroll_delta(terminal_id, edge) {
                        Some(delta) => crate::view::ViewModel {
                            press: crate::view::PressModel {
                                selection_autoscroll: Some(
                                    SelectionAutoscroll { terminal_id, position },
                                ),
                                ..self.press
                            },
                            ..self
                        }.scrolling_by(terminal_id, delta).asking_autoscroll_frame(),
                        None => idle,
                    }.selecting_to(terminal_id, pointer)
                },
            }
        }
    }

    /// The report of a release that the program in a terminal wants.
    #[verifier::opaque]
    pub open spec fn release_report(
        self,
        button: MouseButton,
        modifiers: Modifiers,
        pointer: TerminalPointer,
    ) -> Option<Seq<u8>> {
        match self.press.reported_mouse {
            Some((terminal_id, reported)) => match self.terminal_snapshot(terminal_id) {
                Some(snapshot) => if reported == button {
                    crate::mouse::button_report(
                        pointer.mouse,
                        reported,
                        false,
                        false,
                        modifiers,
                        snapshot.modes,
                    )
                } else {
                    None
                },
                None => None,
            },
            None => None,
        }
    }

    /// With the button released that the program in a terminal has.
    pub open spec fn releasing_reported(
        self,
        button: MouseButton,
        modifiers: Modifiers,
        pointer: TerminalPointer,
    ) -> Self {
        let taken = crate::view::ViewModel {
            press: crate::view::PressModel {
                reported_mouse: None,
                last_reported_mouse_cell: None,
                ..self.press
            },
            ..self
        };
        match self.release_report(button, modifiers, pointer) {
            Some(bytes) => taken.sending_bytes((self.press.reported_mouse->0).0, None, bytes),
            None => taken,
        }.asking(crate::command::EffectModel::StopPropagation)
    }

    /// With the button released that drags a selection in a terminal.
    pub open spec fn releasing_selection(
        self,
        dragged: Option<TerminalId>,
        button: MouseButton,
        pointer: TerminalPointer,
    ) -> Self {
        match dragged {
            Some(terminal_id) => if button == MouseButton::Left && self.config.selection {
                self.selecting_to(terminal_id, pointer)
            } else {
                self
            },
            None => self,
        }
    }

    /// With a button released over a terminal.
    pub open spec fn releasing_over_terminal(
        self,
        button: MouseButton,
        modifiers: Modifiers,
        pointer: TerminalPointer,
    ) -> Self {
        crate::view::ViewModel {
            press: crate::view::PressModel {
                selection_autoscroll: None,
                dragging_terminal: None,
                ..self.press
            },
            ..self
        }.releasing_press(self.press.dragging_terminal, button, modifiers, pointer)
    }

    /// With what a press began ended.
    #[verifier::opaque]
    pub open spec fn releasing_press(
        self,
        dragged: Option<TerminalId>,
        button: MouseButton,
        modifiers: Modifiers,
        pointer: TerminalPointer,
    ) -> Self {
        if self.press.reported_mouse is Some {
            self.releasing_reported(button, modifiers, pointer)
        } else {
            self.releasing_selection(dragged, button, pointer)
        }
    }

    /// The text that is selected in a terminal.
    pub open spec fn copied_text(self, terminal_id: TerminalId) -> Option<Seq<char>> {
        match (self.selection, self.terminal_snapshot(terminal_id)) {
            (Some(selection), Some(snapshot)) => if selection.terminal_id == terminal_id
                && crate::selection::selected_cells(snapshot, selection) is Some
                && crate::selection::selected_text(snapshot, selection).len() > 0 {
                Some(crate::selection::selected_text(snapshot, selection))
            } else {
                None
            },
            _ => None,
        }
    }

    pub open spec fn copying(self, terminal_id: TerminalId) -> Self {
        match self.copied_text(terminal_id) {
            Some(text) => self.asking(crate::command::EffectModel::WriteClipboard { text }),
            None => self,
        }
    }

    /// What a movement of the mouse drags.
    pub open spec fn drag_kind(self) -> DragKind {
        if self.sidebar.dragging_sidebar {
            DragKind::SidebarEdge
        } else if self.sidebar.sidebar_drag is Some {
            DragKind::SidebarRow
        } else if self.press.split_drag is Some {
            DragKind::Divider
        } else if self.press.window_drag_start is Some {
            DragKind::Window
        } else {
            DragKind::Terminal
        }
    }

    /// With the mouse moved while the window is pressed. The movement never
    /// reaches a terminal.
    pub open spec fn moving_window(self, pressed: Option<MouseButton>, far: bool) -> Self {
        if pressed == Some(MouseButton::Left) && self.window_moves(far) {
            self.dragging_window(far).asking(crate::command::EffectModel::StartWindowMove)
        } else {
            self
        }.asking(crate::command::EffectModel::StopPropagation)
    }

    /// With the left button released anywhere.
    pub open spec fn releasing(self, modifiers: Modifiers, pointer: TerminalPointer) -> Self {
        let free = crate::view::ViewModel {
            press: crate::view::PressModel { window_drag_start: None, ..self.press },
            ..self
        };
        if self.sidebar.dragging_sidebar {
            crate::view::ViewModel {
                sidebar: crate::view::SidebarModel { dragging_sidebar: false, ..free.sidebar },
                ..free
            }.notified().asking(
                crate::command::EffectModel::StopPropagation,
            )
        } else if self.sidebar.sidebar_drag is Some {
            free.dropping_row().asking(crate::command::EffectModel::StopPropagation)
        } else if self.press.split_drag is Some {
            free.releasing_divider().asking(crate::command::EffectModel::StopPropagation)
        } else {
            free.releasing_over_terminal(MouseButton::Left, modifiers, pointer)
        }
    }

    /// The terminal that a pane of the connection shown shows.
    pub open spec fn terminal_under(self, pane_id: PaneId) -> Option<TerminalId> {
        match self.connection(self.active_connection) {
            Some(connection) => connection.snapshot.terminal_in(pane_id),
            None => None,
        }
    }

    /// With a terminal pressed: the program in it gets the press, or else a
    /// selection begins.
    pub open spec fn pressing_terminal(
        self,
        terminal_id: TerminalId,
        pointer: TerminalPointer,
        modifiers: Modifiers,
    ) -> Self {
        if self.press_report(terminal_id, pointer, MouseButton::Left, modifiers) is Some {
            self.reporting_press(terminal_id, pointer, MouseButton::Left, modifiers).asking(
                crate::command::EffectModel::StopPropagation,
            )
        } else {
            self.selecting_from(terminal_id, pointer, modifiers.shift)
        }
    }

    /// With a pane pressed. It gets the focus here at once and on the server.
    pub open spec fn pressing_pane(
        self,
        pane_id: PaneId,
        pointer: TerminalPointer,
        modifiers: Modifiers,
    ) -> Self {
        let focused = crate::view::ViewModel {
            focused_pane: Some(pane_id),
            ..self.asking(crate::command::EffectModel::FocusWindow)
        };
        match focused.terminal_under(pane_id) {
            Some(terminal_id) => focused.pressing_terminal(terminal_id, pointer, modifiers),
            None => crate::view::ViewModel { selection: None, ..focused },
        }.dispatching(
            crate::command::CommandModel::FocusPane { pane_id, towards: None },
        ).asking(crate::command::EffectModel::StopPropagation)
    }

    /// With a gesture of the fingers begun or ended.
    pub open spec fn gesturing(self, terminal_id: TerminalId, turn: WheelTurn) -> Self {
        crate::view::ViewModel {
            scrolling: crate::view::ScrollingModel {
                active_trackpad_scrolls: if turn.phase == TouchPhase::Started && turn.in_pixels {
                    self.scrolling.active_trackpad_scrolls.insert(terminal_id.raw)
                } else if turn.phase == TouchPhase::Ended || turn.phase == TouchPhase::Cancelled {
                    self.scrolling.active_trackpad_scrolls.remove(terminal_id.raw)
                } else {
                    self.scrolling.active_trackpad_scrolls
                },
                ..self.scrolling
            },
            ..self
        }
    }

    /// Nothing moves the picture of a terminal away any more.
    pub open spec fn unscrolled(self, terminal_id: TerminalId) -> Self {
        crate::view::ViewModel {
            scrolling: crate::view::ScrollingModel {
                scroll_accumulators: self.scrolling.scroll_accumulators.remove(terminal_id.raw),
                mouse_scroll_animations: self.scrolling.mouse_scroll_animations.remove(terminal_id.raw),
                ..self.scrolling
            },
            ..self
        }
    }

    /// With the handling of a turn ended.
    pub open spec fn wheel_done(self, repaint: bool) -> Self {
        self.notified_if(repaint).asking(crate::command::EffectModel::StopPropagation)
    }

    /// The program in the terminal takes turns as mouse reports.
    pub open spec fn reports_wheel(self, turn: WheelTurn) -> bool {
        turn.modes.mouse_reporting && self.config.mouse_reporting
    }

    /// The program in the terminal takes turns as cursor keys.
    pub open spec fn wheel_is_keys(self, turn: WheelTurn) -> bool {
        turn.modes.alternate_screen && turn.modes.alternate_scroll
    }

    /// What is left to do after a turn of the wheel over a pane.
    pub open spec fn wheel_outcome(self, pane_id: PaneId, turn: WheelTurn) -> WheelOutcome {
        let shown = match self.selected() {
            Some(workspace) => crate::model::terminal_in_tabs(workspace.tabs@, pane_id),
            None => None,
        };
        match shown {
            Some(terminal_id) => if !turn.moves {
                WheelOutcome::Ignored
            } else if self.reports_wheel(turn) || self.wheel_is_keys(turn) {
                WheelOutcome::Sent
            } else if turn.more_than_a_row && crate::mouse::scroll_input_kind(
                turn.in_pixels,
                turn.phase,
                self.scrolling.active_trackpad_scrolls.contains(terminal_id.raw),
            ) == TerminalScrollInputKind::MouseWheel {
                WheelOutcome::Notch { terminal_id }
            } else {
                WheelOutcome::Glide { terminal_id }
            },
            None => WheelOutcome::Ignored,
        }
    }

    /// With the wheel turned over a pane, as far as it is decided here.
    pub open spec fn turning_wheel(self, pane_id: PaneId, turn: WheelTurn) -> Self {
        let focused = self.asking(crate::command::EffectModel::FocusWindow);
        let shown = match self.selected() {
            Some(workspace) => crate::model::terminal_in_tabs(workspace.tabs@, pane_id),
            None => None,
        };
        match shown {
            None => focused,
            Some(terminal_id) => {
                let noted = focused.gesturing(terminal_id, turn);
                let repaint = self.scrolling.scroll_accumulators.contains_key(terminal_id.raw);
                if !turn.moves {
                    noted
                } else if self.reports_wheel(turn) {
                    let rested = noted.unscrolled(terminal_id);
                    match crate::mouse::wheel_report(
                        turn.lines as int,
                        turn.mouse,
                        turn.modifiers,
                        turn.modes,
                    ) {
                        Some(bytes) => rested.sending_bytes(terminal_id, Some(pane_id), bytes),
                        None => rested,
                    }.wheel_done(repaint)
                } else if self.wheel_is_keys(turn) {
                    let rested = noted.unscrolled(terminal_id);
                    (if turn.lines != 0 {
                        rested.sending_text(
                            terminal_id,
                            Some(pane_id),
                            crate::keys::alternate_scroll_text(turn.lines as int, turn.modes),
                        )
                    } else {
                        rested
                    }).wheel_done(repaint)
                } else if self.wheel_outcome(pane_id, turn) is Glide {
                    crate::view::ViewModel {
                        scrolling: crate::view::ScrollingModel {
                            mouse_scroll_animations: noted.scrolling.mouse_scroll_animations.remove(
                                terminal_id.raw,
                            ),
                            ..noted.scrolling
                        },
                        ..noted
                    }
                } else {
                    noted
                }
            },
        }
    }

    /// With the room for a terminal measured. Only a size that is not
    /// negotiated yet is asked for, over the channel that the pane had when it
    /// was drawn.
    pub open spec fn measuring_pane(
        self,
        owner: TransportId,
        connection_id: ConnectionId,
        pane_id: PaneId,
        request: TerminalResizeRequest,
        window_active: bool,
    ) -> Self {
        let decision = crate::resize::resize_decision(
            self.resize_requests,
            (connection_id.raw, pane_id.raw),
            request,
            window_active,
        );
        let remembered = crate::view::ViewModel { resize_requests: decision.0, ..self };
        if decision.1 {
            remembered.asking(
                crate::command::EffectModel::Run {
                    transport: owner,
                    command: crate::command::CommandModel::ResizeTerminal {
                        pane_id,
                        columns: request.target.columns,
                        lines: request.target.lines,
                    },
                },
            )
        } else {
            remembered
        }
    }
}

impl WorkspaceView {
    /// The distance by which the picture of a terminal is moved.
    pub fn terminal_scroll_offset(&self, snapshot: &TerminalSnapshot) -> (offset: RowOffset)
        requires
            crate::scroll::is_paintable(*snapshot),
        ensures
            offset == self@.painted_offset(*snapshot),
            crate::scroll::rows_are_addressable(snapshot.size.lines as int, offset),
    {
        let offset: RowOffset = match self.scrolling.scroll_accumulators.get(&snapshot.terminal_id.raw) {
            Some(state) => state.visual_unacked_rows,
            None => RowOffset::zero(),
        };
        terminal_scroll_offset_for_snapshot(offset, snapshot)
    }

    /// The place in a terminal whose picture lies under the pointer.
    pub fn selection_endpoint_under(&self, terminal_id: TerminalId, pointer: TerminalPointer) -> (endpoint:
        Option<TerminalSelectionEndpoint>)
        requires
            self@.wf(),
        ensures
            endpoint == self@.endpoint_under(terminal_id, pointer),
    {
        reveal(crate::view::ViewModel::endpoint_under);
        match self.terminal_snapshot_for(terminal_id) {
            Some(snapshot) => {
                let offset = self.terminal_scroll_offset(snapshot);
                let row: i32 = terminal_source_row_at(
                    snapshot.size.lines,
                    offset,
                    pointer.painted_row,
                );
                Some(terminal_selection_endpoint_at(snapshot, pointer.mouse, row))
            },
            None => None,
        }
    }

    fn modes_of(&self, terminal_id: TerminalId) -> (modes: Option<TerminalModes>)
        ensures
            match self@.terminal_snapshot(terminal_id) {
                Some(snapshot) => modes == Some(snapshot.modes),
                None => modes is None,
            },
    {
        match self.terminal_snapshot_for(terminal_id) {
            Some(snapshot) => Some(snapshot.modes),
            None => None,
        }
    }

    fn send_bytes(&mut self, terminal_id: TerminalId, source: Option<PaneId>, bytes: Vec<u8>)
        ensures
            final(self)@ == old(self)@.sending_bytes(terminal_id, source, bytes@),
    {
        self.enqueue_terminal_command(AppCommand::SendBytes { terminal_id, source, bytes });
    }

    /// Sends text to a terminal.
    pub fn send_text(&mut self, terminal_id: TerminalId, source: Option<PaneId>, text: String)
        ensures
            final(self)@ == old(self)@.sending_text(terminal_id, source, text@),
            old(self)@.wf() ==> final(self)@.wf(),
    {
        self.enqueue_terminal_command(AppCommand::SendText { terminal_id, source, text });
    }

    /// Reports a press to the program in a terminal; tells whether it wants
    /// it.
    pub fn begin_reported_mouse(
        &mut self,
        terminal_id: TerminalId,
        pointer: TerminalPointer,
        button: MouseButton,
        modifiers: Modifiers,
    ) -> (reported: bool)
        requires
            old(self)@.wf(),
        ensures
            final(self)@ == old(self)@.reporting_press(terminal_id, pointer, button, modifiers),
            reported == (old(self)@.press_report(
                terminal_id,
                pointer,
                button,
                modifiers,
            ) is Some),
            final(self)@.wf(),
    {
        reveal(crate::view::ViewModel::press_report);
        let modes: TerminalModes = match self.modes_of(terminal_id) {
            Some(modes) => modes,
            None => {
                return false;
            },
        };
        if !self.config.mouse_reporting || !modes.mouse_reporting {
            return false;
        }
        let bytes: Vec<u8> = match terminal_mouse_button_input(
            pointer.mouse,
            button,
            true,
            false,
            modifiers,
            modes,
        ) {
            Some(bytes) => bytes,
            None => {
                return false;
            },
        };
        let cell: Option<(TerminalId, TerminalCellPosition)> = match self.selection_endpoint_under(
            terminal_id,
            pointer,
        ) {
            Some(endpoint) => Some((terminal_id, endpoint.position)),
            None => None,
        };
        self.ime.reset_marked_text();
        self.send_bytes(terminal_id, None, bytes);
        self.press.reported_mouse = Some((terminal_id, button));
        self.press.last_reported_mouse_cell = cell;
        self.notify();
        true
    }

    /// Begins a selection, or extends it with shift.
    pub fn begin_terminal_selection(
        &mut self,
        terminal_id: TerminalId,
        pointer: TerminalPointer,
        shift_held: bool,
    )
        requires
            old(self)@.wf(),
        ensures
            final(self)@ == old(self)@.selecting_from(terminal_id, pointer, shift_held),
            final(self)@.wf(),
    {
        if !self.config.selection {
            return;
        }
        let endpoint: TerminalSelectionEndpoint = match self.selection_endpoint_under(
            terminal_id,
            pointer,
        ) {
            Some(endpoint) => endpoint,
            None => {
                return;
            },
        };
        self.clear_ime();
        self.selection = Some(
            terminal_selection_after_click(self.selection, terminal_id, endpoint, shift_held),
        );
        self.press.selection_autoscroll = None;
        self.press.dragging_terminal = Some(terminal_id);
        self.notify();
    }

    /// The rows to scroll while a selection is dragged to an edge.
    pub fn terminal_selection_autoscroll_delta(
        &self,
        terminal_id: TerminalId,
        edge: Option<EdgeProximity>,
    ) -> (delta: Option<i64>)
        ensures
            delta == self@.autoscroll_delta(terminal_id, edge),
    {
        if self.pi_agent_running_for_terminal(terminal_id) {
            return None;
        }
        match (self.terminal_snapshot_for(terminal_id), edge) {
            (Some(snapshot), Some(edge)) => match terminal_selection_autoscroll_direction(
                edge.has_height,
                edge.near_top,
                edge.near_bottom,
            ) {
                Some(delta) => {
                    let at_boundary: bool = if delta > 0 {
                        snapshot.rows_before.len() == 0
                    } else {
                        snapshot.rows_after.len() == 0
                    };
                    if at_boundary {
                        None
                    } else {
                        Some(delta)
                    }
                },
                None => None,
            },
            _ => None,
        }
    }

    /// Moves the head of the selection in a terminal to the pointer.
    pub fn update_terminal_selection_head(
        &mut self,
        terminal_id: TerminalId,
        pointer: TerminalPointer,
    )
        requires
            old(self)@.wf(),
        ensures
            final(self)@ == old(self)@.selecting_to(terminal_id, pointer),
            final(self)@.wf(),
    {
        let endpoint: TerminalSelectionEndpoint = match self.selection_endpoint_under(
            terminal_id,
            pointer,
        ) {
            Some(endpoint) => endpoint,
            None => {
                return;
            },
        };
        if let Some(selection) = self.selection {
            if selection.terminal_id == terminal_id && selection.head != endpoint {
                self.selection = Some(
                    TerminalSelection {
                        terminal_id: selection.terminal_id,
                        anchor: selection.anchor,
                        head: endpoint,
                    },
                );
                self.notify();
            }
        }
    }

    pub fn request_selection_autoscroll_frame(&mut self)
        ensures
            final(self)@ == old(self)@.asking_autoscroll_frame(),
            old(self)@.wf() ==> final(self)@.wf(),
    {
        if self.press.selection_autoscroll_frame_pending {
            return;
        }
        self.press.selection_autoscroll_frame_pending = true;
        self.ask(Effect::RequestAutoscrollFrame);
    }

    /// Takes a frame while a selection is held at an edge; `edge` and
    /// `pointer` are those of the place where it is held.
    pub fn run_selection_autoscroll_frame(
        &mut self,
        edge: Option<EdgeProximity>,
        pointer: TerminalPointer,
    )
        requires
            old(self)@.wf(),
        ensures
            final(self)@ == old(self)@.autoscroll_frame(edge, pointer),
            final(self)@.wf(),
    {
        self.press.selection_autoscroll_frame_pending = false;
        let autoscroll: SelectionAutoscroll = match self.press.selection_autoscroll {
            Some(autoscroll) => autoscroll,
            None => {
                return;
            },
        };
        if self.press.dragging_terminal != Some(autoscroll.terminal_id) {
            self.press.selection_autoscroll = None;
            return;
        }
        match self.terminal_selection_autoscroll_delta(autoscroll.terminal_id, edge) {
            Some(delta) => {
                self.scroll_terminal_by(autoscroll.terminal_id, delta);
                self.update_terminal_selection_head(autoscroll.terminal_id, pointer);
                self.request_selection_autoscroll_frame();
            },
            None => {
                self.press.selection_autoscroll = None;
            },
        }
    }

    /// Reports a movement to the program in the terminal that has the button.
    pub fn update_reported_mouse(
        &mut self,
        pressed: Option<MouseButton>,
        modifiers: Modifiers,
        pointer: TerminalPointer,
    )
        requires
            old(self)@.wf(),
        ensures
            final(self)@ == old(self)@.reporting_motion(pressed, modifiers, pointer),
            final(self)@.wf(),
    {
        reveal(crate::view::ViewModel::motion_report);
        let (terminal_id, button): (TerminalId, MouseButton) = match self.press.reported_mouse {
            Some(reported) => reported,
            None => {
                return;
            },
        };
        if pressed != Some(button) {
            return;
        }
        let modes: TerminalModes = match self.modes_of(terminal_id) {
            Some(modes) => modes,
            None => {
                return;
            },
        };
        if !modes.mouse_motion && !modes.mouse_drag {
            return;
        }
        let cell: TerminalCellPosition = match self.selection_endpoint_under(terminal_id, pointer) {
            Some(endpoint) => endpoint.position,
            None => {
                return;
            },
        };
        if let Some((last_terminal, last_cell)) = self.press.last_reported_mouse_cell {
            if last_terminal == terminal_id && last_cell == cell {
                return;
            }
        }
        if let Some(bytes) = terminal_mouse_button_input(
            pointer.mouse,
            button,
            true,
            true,
            modifiers,
            modes,
        ) {
            self.send_bytes(terminal_id, None, bytes);
            self.press.last_reported_mouse_cell = Some((terminal_id, cell));
            self.ask(Effect::StopPropagation);
        }
    }

    /// Follows the mouse over the terminal that has the button; `pointer` and
    /// `edge` are relative to that terminal.
    pub fn update_terminal_selection(
        &mut self,
        position: PointerPosition,
        pressed: Option<MouseButton>,
        modifiers: Modifiers,
        pointer: TerminalPointer,
        edge: Option<EdgeProximity>,
    )
        requires
            old(self)@.wf(),
        ensures
            final(self)@ == old(self)@.moving_over_terminal(
                position,
                pressed,
                modifiers,
                pointer,
                edge,
            ),
            final(self)@.wf(),
    {
        if self.press.reported_mouse.is_some() {
            self.press.selection_autoscroll = None;
            self.update_reported_mouse(pressed, modifiers, pointer);
            return;
        }
        let terminal_id: TerminalId = match self.press.dragging_terminal {
            Some(terminal_id) => terminal_id,
            None => {
                return;
            },
        };
        if pressed != Some(MouseButton::Left) {
            self.press.selection_autoscroll = None;
            return;
        }
        match self.terminal_selection_autoscroll_delta(terminal_id, edge) {
            Some(delta) => {
                self.press.selection_autoscroll = Some(SelectionAutoscroll { terminal_id, position });
                self.scroll_terminal_by(terminal_id, delta);
                self.request_selection_autoscroll_frame();
            },
            None => {
                self.press.selection_autoscroll = None;
            },
        }
        self.update_terminal_selection_head(terminal_id, pointer);
    }

    fn report_of_release(
        &self,
        button: MouseButton,
        modifiers: Modifiers,
        pointer: TerminalPointer,
    ) -> (report: Option<Vec<u8>>)
        ensures
            match report {
                Some(bytes) => self@.release_report(button, modifiers, pointer) == Some(bytes@),
                None => self@.release_report(button, modifiers, pointer) is None,
            },
    {
        reveal(crate::view::ViewModel::release_report);
        match self.press.reported_mouse {
            Some((terminal_id, reported)) => {
                if reported != button {
                    return None;
                }
                match self.modes_of(terminal_id) {
                    Some(modes) => terminal_mouse_button_input(
                        pointer.mouse,
                        reported,
                        false,
                        false,
                        modifiers,
                        modes,
                    ),
                    None => None,
                }
            },
            None => None,
        }
    }

    fn release_reported_mouse(
        &mut self,
        button: MouseButton,
        modifiers: Modifiers,
        pointer: TerminalPointer,
        terminal_id: TerminalId,
    )
        requires
            old(self)@.press.reported_mouse is Some,
            (old(self)@.press.reported_mouse->0).0 == terminal_id,
        ensures
            final(self)@ == old(self)@.releasing_reported(button, modifiers, pointer),
            old(self)@.wf() ==> final(self)@.wf(),
    {
        let report = self.report_of_release(button, modifiers, pointer);
        self.press.reported_mouse = None;
        self.press.last_reported_mouse_cell = None;
        if let Some(bytes) = report {
            self.send_bytes(terminal_id, None, bytes);
        }
        self.ask(Effect::StopPropagation);
    }

    fn release_selection(
        &mut self,
        dragged: Option<TerminalId>,
        button: MouseButton,
        pointer: TerminalPointer,
    )
        requires
            old(self)@.wf(),
        ensures
            final(self)@ == old(self)@.releasing_selection(dragged, button, pointer),
            final(self)@.wf(),
    {
        if let Some(terminal_id) = dragged {
            if button == MouseButton::Left && self.config.selection {
                self.update_terminal_selection_head(terminal_id, pointer);
            }
        }
    }

    /// Ends a selection or a reported press.
    pub fn finish_terminal_selection(
        &mut self,
        button: MouseButton,
        modifiers: Modifiers,
        pointer: TerminalPointer,
    )
        requires
            old(self)@.wf(),
        ensures
            final(self)@ == old(self)@.releasing_over_terminal(button, modifiers, pointer),
            final(self)@.wf(),
    {
        let dragged = self.press.dragging_terminal;
        self.press.selection_autoscroll = None;
        self.press.dragging_terminal = None;
        self.release_press(dragged, button, modifiers, pointer);
    }

    fn release_press(
        &mut self,
        dragged: Option<TerminalId>,
        button: MouseButton,
        modifiers: Modifiers,
        pointer: TerminalPointer,
    )
        requires
            old(self)@.wf(),
        ensures
            final(self)@ == old(self)@.releasing_press(dragged, button, modifiers, pointer),
            final(self)@.wf(),
    {
        reveal(crate::view::ViewModel::releasing_press);
        match self.press.reported_mouse {
            Some((terminal_id, _)) => {
                self.release_reported_mouse(button, modifiers, pointer, terminal_id);
            },
            None => {
                self.release_selection(dragged, button, pointer);
            },
        }
    }

    /// Copies what is selected in a terminal; tells whether there was
    /// something.
    pub fn copy_terminal_selection(&mut self, terminal_id: TerminalId) -> (copied: bool)
        requires
            old(self)@.wf(),
        ensures
            final(self)@ == old(self)@.copying(terminal_id),
            copied == (old(self)@.copied_text(terminal_id) is Some),
            final(self)@.wf(),
    {
        let selection: TerminalSelection = match self.selection {
            Some(selection) => selection,
            None => {
                return false;
            },
        };
        if selection.terminal_id != terminal_id {
            return false;
        }
        let text: String = match self.terminal_snapshot_for(terminal_id) {
            Some(snapshot) => {
                if selection_bounds(snapshot, selection).is_none() {
                    return false;
                }
                selected_terminal_text(snapshot, selection)
            },
            None => {
                return false;
            },
        };
        if text.as_str().is_empty() {
            return false;
        }
        self.ask(Effect::WriteClipboard { text });
        true
    }

    /// What a movement of the mouse drags.
    pub fn current_drag(&self) -> (kind: DragKind)
        ensures
            kind == self@.drag_kind(),
    {
        if self.sidebar.dragging_sidebar {
            DragKind::SidebarEdge
        } else if self.sidebar.sidebar_drag.is_some() {
            DragKind::SidebarRow
        } else if self.press.split_drag.is_some() {
            DragKind::Divider
        } else if self.press.window_drag_start.is_some() {
            DragKind::Window
        } else {
            DragKind::Terminal
        }
    }

    pub fn move_sidebar_edge(&mut self, width: u32, differs: bool)
        ensures
            final(self)@ == old(self)@.dragging_edge(width, differs).asking(
                crate::command::EffectModel::StopPropagation,
            ),
            old(self)@.wf() ==> final(self)@.wf(),
    {
        self.update_sidebar_width(width, differs);
        self.ask(Effect::StopPropagation);
    }

    pub fn move_sidebar_row(&mut self, far: bool, pointer: &SidebarPointer)
        requires
            pointer.wf(),
        ensures
            final(self)@ == (if old(self)@.sidebar.sidebar_drag is Some {
                old(self)@.dragging_row(far, *pointer).asking(
                    crate::command::EffectModel::StopPropagation,
                )
            } else {
                old(self)@
            }),
            old(self)@.wf() ==> final(self)@.wf(),
    {
        if self.update_sidebar_drag(far, pointer) {
            self.ask(Effect::StopPropagation);
        }
    }

    pub fn move_divider(&mut self, ratio: u32)
        ensures
            final(self)@ == (if old(self)@.press.split_drag is Some {
                old(self)@.dragging_divider(ratio).asking(
                    crate::command::EffectModel::StopPropagation,
                )
            } else {
                old(self)@
            }),
            old(self)@.wf() ==> final(self)@.wf(),
    {
        if self.update_split_drag(ratio) {
            self.ask(Effect::StopPropagation);
        }
    }

    /// Follows the mouse while the window is pressed.
    pub fn move_window(&mut self, pressed: Option<MouseButton>, far: bool)
        ensures
            final(self)@ == old(self)@.moving_window(pressed, far),
            old(self)@.wf() ==> final(self)@.wf(),
    {
        if pressed == Some(MouseButton::Left) && self.update_window_drag(far) {
            self.ask(Effect::StartWindowMove);
        }
        self.ask(Effect::StopPropagation);
    }

    /// Releases the left button; `pointer` is relative to the terminal that
    /// has it.
    pub fn release_left_button(&mut self, modifiers: Modifiers, pointer: TerminalPointer)
        requires
            old(self)@.wf(),
        ensures
            final(self)@ == old(self)@.releasing(modifiers, pointer),
            final(self)@.wf(),
    {
        self.press.window_drag_start = None;
        match self.current_drag() {
            DragKind::SidebarEdge => {
                self.sidebar.dragging_sidebar = false;
                self.notify();
                self.ask(Effect::StopPropagation);
            },
            DragKind::SidebarRow => {
                self.finish_sidebar_drag();
                self.ask(Effect::StopPropagation);
            },
            DragKind::Divider => {
                self.finish_split_drag();
                self.ask(Effect::StopPropagation);
            },
            _ => {
                self.finish_terminal_selection(MouseButton::Left, modifiers, pointer);
            },
        }
    }

    fn press_terminal(
        &mut self,
        terminal_id: TerminalId,
        pointer: TerminalPointer,
        modifiers: Modifiers,
    )
        requires
            old(self)@.wf(),
        ensures
            final(self)@ == old(self)@.pressing_terminal(terminal_id, pointer, modifiers),
            final(self)@.wf(),
    {
        if self.begin_reported_mouse(terminal_id, pointer, MouseButton::Left, modifiers) {
            self.ask(Effect::StopPropagation);
        } else {
            self.begin_terminal_selection(terminal_id, pointer, modifiers.shift);
        }
    }

    /// Presses a pane.
    pub fn press_pane(&mut self, pane_id: PaneId, pointer: TerminalPointer, modifiers: Modifiers)
        requires
            old(self)@.wf(),
        ensures
            final(self)@ == old(self)@.pressing_pane(pane_id, pointer, modifiers),
            final(self)@.wf(),
    {
        self.ask(Effect::FocusWindow);
        self.focused_pane = Some(pane_id);
        match self.terminal_id_for_pane_in_active_connection(pane_id) {
            Some(terminal_id) => {
                self.press_terminal(terminal_id, pointer, modifiers);
            },
            None => {
                self.selection = None;
            },
        }
        self.dispatch(AppCommand::FocusPane { pane_id, towards: None });
        self.ask(Effect::StopPropagation);
    }

    fn note_gesture(&mut self, terminal_id: TerminalId, turn: WheelTurn)
        ensures
            final(self)@ == old(self)@.gesturing(terminal_id, turn),
    {
        match turn.phase {
            TouchPhase::Started => {
                if turn.in_pixels {
                    self.scrolling.active_trackpad_scrolls.insert(terminal_id.raw);
                }
            },
            TouchPhase::Ended | TouchPhase::Cancelled => {
                self.scrolling.active_trackpad_scrolls.remove(&terminal_id.raw);
            },
            TouchPhase::Moved => {},
        }
    }

    fn unscroll(&mut self, terminal_id: TerminalId) -> (was_scrolled: bool)
        ensures
            final(self)@ == old(self)@.unscrolled(terminal_id),
            was_scrolled == old(self)@.scrolling.scroll_accumulators.contains_key(terminal_id.raw),
    {
        let was_scrolled = self.scrolling.scroll_accumulators.remove(&terminal_id.raw).is_some();
        self.scrolling.mouse_scroll_animations.remove(&terminal_id.raw);
        was_scrolled
    }

    /// Ends the handling of a turn of the wheel.
    pub fn finish_wheel(&mut self, repaint: bool)
        ensures
            final(self)@ == old(self)@.wheel_done(repaint),
            old(self)@.wf() ==> final(self)@.wf(),
    {
        if repaint {
            self.notify();
        }
        self.ask(Effect::StopPropagation);
    }

    fn report_wheel(&mut self, terminal_id: TerminalId, pane_id: PaneId, turn: WheelTurn)
        ensures
            final(self)@ == match crate::mouse::wheel_report(
                turn.lines as int,
                turn.mouse,
                turn.modifiers,
                turn.modes,
            ) {
                Some(bytes) => old(self)@.unscrolled(terminal_id).sending_bytes(
                    terminal_id,
                    Some(pane_id),
                    bytes,
                ),
                None => old(self)@.unscrolled(terminal_id),
            }.wheel_done(old(self)@.scrolling.scroll_accumulators.contains_key(terminal_id.raw)),
    {
        let repaint = self.unscroll(terminal_id);
        if let Some(bytes) = terminal_mouse_input(
            turn.lines,
            turn.mouse,
            turn.modifiers,
            turn.modes,
        ) {
            self.send_bytes(terminal_id, Some(pane_id), bytes);
        }
        self.finish_wheel(repaint);
    }

    fn send_wheel_keys(&mut self, terminal_id: TerminalId, pane_id: PaneId, turn: WheelTurn)
        ensures
            final(self)@ == (if turn.lines != 0 {
                old(self)@.unscrolled(terminal_id).sending_text(
                    terminal_id,
                    Some(pane_id),
                    crate::keys::alternate_scroll_text(turn.lines as int, turn.modes),
                )
            } else {
                old(self)@.unscrolled(terminal_id)
            }).wheel_done(old(self)@.scrolling.scroll_accumulators.contains_key(terminal_id.raw)),
    {
        let repaint = self.unscroll(terminal_id);
        if turn.lines != 0 {
            self.send_text(
                terminal_id,
                Some(pane_id),
                terminal_alternate_scroll_input(turn.lines, turn.modes),
            );
        }
        self.finish_wheel(repaint);
    }

    /// Takes a turn of the wheel over a pane. Where the terminal itself is to
    /// be moved, that is left to the caller, who ends the turn.
    pub fn turn_wheel(&mut self, pane_id: PaneId, turn: WheelTurn) -> (outcome: WheelOutcome)
        ensures
            final(self)@ == old(self)@.turning_wheel(pane_id, turn),
            outcome == old(self)@.wheel_outcome(pane_id, turn),
            old(self)@.wf() ==> final(self)@.wf(),
    {
        self.ask(Effect::FocusWindow);
        let terminal_id: TerminalId = match self.terminal_id_for_pane(pane_id) {
            Some(terminal_id) => terminal_id,
            None => {
                return WheelOutcome::Ignored;
            },
        };
        let kind = terminal_scroll_input_kind(
            turn.in_pixels,
            turn.phase,
            self.scrolling.active_trackpad_scrolls.contains(&terminal_id.raw),
        );
        self.note_gesture(terminal_id, turn);
        if !turn.moves {
            return WheelOutcome::Ignored;
        }
        if turn.modes.mouse_reporting && self.config.mouse_reporting {
            self.report_wheel(terminal_id, pane_id, turn);
            WheelOutcome::Sent
        } else if turn.modes.alternate_screen && turn.modes.alternate_scroll {
            self.send_wheel_keys(terminal_id, pane_id, turn);
            WheelOutcome::Sent
        } else if kind == TerminalScrollInputKind::MouseWheel && turn.more_than_a_row {
            WheelOutcome::Notch { terminal_id }
        } else {
            self.scrolling.mouse_scroll_animations.remove(&terminal_id.raw);
            WheelOutcome::Glide { terminal_id }
        }
    }

    /// Takes the room that was measured for a terminal. `owner` is the channel
    /// of its connection when the pane was drawn, so that a size reaches the
    /// server of the pane even where the window has moved on.
    pub fn observe_terminal_size(
        &mut self,
        owner: TransportId,
        connection_id: ConnectionId,
        pane_id: PaneId,
        terminal_id: TerminalId,
        current_size: TerminalSize,
        target: TerminalSize,
        window_active: bool,
    )
        ensures
            final(self)@ == old(self)@.measuring_pane(
                owner,
                connection_id,
                pane_id,
                TerminalResizeRequest { terminal_id, target, observed_size: current_size },
                window_active,
            ),
            old(self)@.wf() ==> final(self)@.wf(),
    {
        if terminal_resize_request_needed(
            &mut self.resize_requests,
            connection_id,
            pane_id,
            terminal_id,
            current_size,
            target,
            window_active,
        ) {
            self.ask(
                Effect::Run {
                    transport: owner,
                    command: AppCommand::ResizeTerminal {
                        pane_id,
                        columns: target.columns,
                        lines: target.lines,
                    },
                },
            );
        }
    }
}

/// A release ends what a press began: nothing is dragged any more, nothing is
/// reported, and no edge scrolls on.
pub proof fn law_release_ends_the_drag(
    view: crate::view::ViewModel,
    button: MouseButton,
    modifiers: Modifiers,
    pointer: TerminalPointer,
)
    ensures
        ({
            let after = view.releasing_over_terminal(button, modifiers, pointer);
            &&& after.press.dragging_terminal is None
            &&& after.press.reported_mouse is None
            &&& after.press.selection_autoscroll is None
        }),
{
    reveal(crate::view::ViewModel::releasing_press);
}

/// Where the release comes without a movement before it, the selection still
/// ends under the pointer.
pub proof fn law_release_is_authoritative(
    view: crate::view::ViewModel,
    terminal_id: TerminalId,
    modifiers: Modifiers,
    pointer: TerminalPointer,
)
    requires
        view.press.reported_mouse is None,
        view.press.dragging_terminal == Some(terminal_id),
        view.config.selection,
        view.selection is Some,
        view.selection->0.terminal_id == terminal_id,
        view.endpoint_under(terminal_id, pointer) is Some,
    ensures
        ({
            let after = view.releasing_over_terminal(MouseButton::Left, modifiers, pointer);
            &&& after.selection is Some
            &&& after.selection->0.head == view.endpoint_under(terminal_id, pointer)->0
            &&& after.selection->0.anchor == view.selection->0.anchor
        }),
{
    reveal(crate::view::ViewModel::releasing_press);
    reveal(crate::view::ViewModel::endpoint_under);
    let idle = crate::view::ViewModel {
        press: crate::view::PressModel {
            selection_autoscroll: None,
            dragging_terminal: None,
            ..view.press
        },
        ..view
    };
    assert(idle.endpoint_under(terminal_id, pointer) == view.endpoint_under(terminal_id, pointer));
}

/// A cell that the mouse stays in is reported once.
pub proof fn law_cells_are_reported_once(
    view: crate::view::ViewModel,
    pressed: Option<MouseButton>,
    modifiers: Modifiers,
    pointer: TerminalPointer,
)
    ensures
        view.reporting_motion(pressed, modifiers, pointer).reporting_motion(
            pressed,
            modifiers,
            pointer,
        ) == view.reporting_motion(pressed, modifiers, pointer),
{
    reveal(crate::view::ViewModel::endpoint_under);
    reveal(crate::view::ViewModel::motion_report);
    let once = view.reporting_motion(pressed, modifiers, pointer);
    if view.motion_report(pressed, modifiers, pointer) is Some {
        let terminal_id = (view.press.reported_mouse->0).0;
        assert(once.endpoint_under(terminal_id, pointer) == view.endpoint_under(
            terminal_id,
            pointer,
        ));
    }
}

/// While a full screen agent owns a terminal, dragging a selection to its edge
/// does not reveal its history.
pub proof fn law_agents_keep_their_screen(
    view: crate::view::ViewModel,
    terminal_id: TerminalId,
    edge: Option<EdgeProximity>,
)
    requires
        crate::model::pi_runs_on(view.snapshot, terminal_id),
    ensures
        view.autoscroll_delta(terminal_id, edge) is None,
{
}

/// A press over a terminal whose program listens to the mouse goes to that
/// program; otherwise it starts a selection under the pointer.
pub proof fn law_presses_go_to_listening_programs(
    view: crate::view::ViewModel,
    connection: crate::view::WorkspaceConnection,
    terminal_id: TerminalId,
    snapshot: TerminalSnapshot,
    pointer: TerminalPointer,
    modifiers: Modifiers,
    bytes: Seq<u8>,
)
    requires
        view.terminal_snapshot(terminal_id) == Some(snapshot),
        view.connection(view.active_connection) == Some(connection),
        crate::mouse::button_report(
            pointer.mouse,
            MouseButton::Left,
            true,
            false,
            modifiers,
            snapshot.modes,
        ) == Some(bytes),
    ensures
        view.config.mouse_reporting && snapshot.modes.mouse_reporting ==> {
            let after = view.pressing_terminal(terminal_id, pointer, modifiers);
            &&& after.press.reported_mouse == Some((terminal_id, MouseButton::Left))
            &&& after.selection == view.selection
            &&& after.effects == view.effects.push(
                crate::command::EffectModel::Enqueue {
                    transport: connection.client,
                    command: crate::command::CommandModel::SendBytes {
                        terminal_id,
                        source: None,
                        bytes,
                    },
                },
            ).push(crate::command::EffectModel::Notify).push(
                crate::command::EffectModel::StopPropagation,
            )
        },
        !(view.config.mouse_reporting && snapshot.modes.mouse_reporting) && view.config.selection
            ==> {
            let after = view.pressing_terminal(terminal_id, pointer, modifiers);
            let endpoint = crate::scroll::endpoint_at(
                snapshot,
                pointer.mouse,
                crate::scroll::source_row(
                    snapshot.size.lines as int,
                    view.painted_offset(snapshot),
                    pointer.painted_row,
                ),
            );
            &&& after.selection is Some
            &&& after.selection->0.terminal_id == terminal_id
            &&& after.selection->0.head == endpoint
            &&& !modifiers.shift ==> after.selection->0.anchor == endpoint
            &&& after.press.dragging_terminal == Some(terminal_id)
            &&& after.press.reported_mouse == view.press.reported_mouse
            &&& after.ime.terminal is None
            &&& after.effects == view.effects.push(crate::command::EffectModel::Notify)
        },
        !(view.config.mouse_reporting && snapshot.modes.mouse_reporting) && !view.config.selection
            ==> view.pressing_terminal(terminal_id, pointer, modifiers) == view,
{
    reveal(crate::view::ViewModel::press_report);
    reveal(crate::view::ViewModel::endpoint_under);
}

/// While a button is held that a program knows of, each new cell is reported to
/// it as a motion, where it listens to motions; the release is reported as such.
pub proof fn law_motions_and_releases_are_reported(
    view: crate::view::ViewModel,
    connection: crate::view::WorkspaceConnection,
    terminal_id: TerminalId,
    snapshot: TerminalSnapshot,
    endpoint: TerminalSelectionEndpoint,
    button: MouseButton,
    pointer: TerminalPointer,
    modifiers: Modifiers,
    moved: Seq<u8>,
    released: Seq<u8>,
)
    requires
        view.terminal_snapshot(terminal_id) == Some(snapshot),
        view.connection(view.active_connection) == Some(connection),
        view.press.reported_mouse == Some((terminal_id, button)),
        view.endpoint_under(terminal_id, pointer) == Some(endpoint),
        crate::mouse::button_report(pointer.mouse, button, true, true, modifiers, snapshot.modes)
            == Some(moved),
        crate::mouse::button_report(pointer.mouse, button, false, false, modifiers, snapshot.modes)
            == Some(released),
    ensures
        ({
            let listens = snapshot.modes.mouse_motion || snapshot.modes.mouse_drag;
            let new = view.press.last_reported_mouse_cell != Some((terminal_id, endpoint.position));
            let after = view.reporting_motion(Some(button), modifiers, pointer);
            &&& listens && new ==> after.effects == view.effects.push(
                crate::command::EffectModel::Enqueue {
                    transport: connection.client,
                    command: crate::command::CommandModel::SendBytes {
                        terminal_id,
                        source: None,
                        bytes: moved,
                    },
                },
            ).push(crate::command::EffectModel::StopPropagation)
            &&& listens && new ==> after.press.last_reported_mouse_cell == Some(
                (terminal_id, endpoint.position),
            )
            &&& !(listens && new) ==> after == view
            &&& view.reporting_motion(None, modifiers, pointer) == view
        }),
        ({
            let after = view.releasing_reported(button, modifiers, pointer);
            &&& after.press.reported_mouse is None
            &&& after.press.last_reported_mouse_cell is None
            &&& after.effects == view.effects.push(
                crate::command::EffectModel::Enqueue {
                    transport: connection.client,
                    command: crate::command::CommandModel::SendBytes {
                        terminal_id,
                        source: None,
                        bytes: released,
                    },
                },
            ).push(crate::command::EffectModel::StopPropagation)
        }),
{
    reveal(crate::view::ViewModel::motion_report);
    reveal(crate::view::ViewModel::release_report);
}

/// A dragged pointer takes the end of the selection with it; its start stays.
pub proof fn law_drags_move_the_end_of_the_selection(
    view: crate::view::ViewModel,
    terminal_id: TerminalId,
    selection: TerminalSelection,
    endpoint: TerminalSelectionEndpoint,
    pointer: TerminalPointer,
)
    requires
        view.selection == Some(selection),
        view.endpoint_under(terminal_id, pointer) == Some(endpoint),
    ensures
        selection.terminal_id == terminal_id ==> {
            let after = view.selecting_to(terminal_id, pointer);
            &&& after.selection is Some
            &&& after.selection->0.head == endpoint
            &&& after.selection->0.anchor == selection.anchor
            &&& after.selection->0.terminal_id == terminal_id
            &&& after.effects == (if selection.head != endpoint {
                view.effects.push(crate::command::EffectModel::Notify)
            } else {
                view.effects
            })
        },
        selection.terminal_id != terminal_id ==> view.selecting_to(terminal_id, pointer) == view,
{
}

/// Dragging near an edge scrolls towards it, up into the history and down to
/// the newest rows, while there are rows there; a terminal whose agent keeps its
/// screen is not scrolled.
pub proof fn law_edges_scroll_while_there_are_rows(
    view: crate::view::ViewModel,
    terminal_id: TerminalId,
    snapshot: TerminalSnapshot,
)
    requires
        view.terminal_snapshot(terminal_id) == Some(snapshot),
        !crate::model::pi_runs_on(view.snapshot, terminal_id),
    ensures
        ({
            let top = EdgeProximity { has_height: true, near_top: true, near_bottom: false };
            let bottom = EdgeProximity { has_height: true, near_top: false, near_bottom: true };
            let between = EdgeProximity { has_height: true, near_top: false, near_bottom: false };
            &&& view.autoscroll_delta(terminal_id, Some(top)) == (if snapshot.rows_before.len() > 0 {
                Some(3i64)
            } else {
                None
            })
            &&& view.autoscroll_delta(terminal_id, Some(bottom)) == (if snapshot.rows_after.len()
                > 0 {
                Some(-3i64)
            } else {
                None
            })
            &&& view.autoscroll_delta(terminal_id, Some(between)) is None
            &&& view.autoscroll_delta(terminal_id, None) is None
        }),
{
}

/// A turn of the wheel goes to a program that listens to the mouse, or as cursor
/// keys to one that fills the screen; otherwise it scrolls: with an animation
/// where a wheel was turned by more than a row, else as far as the fingers did.
pub proof fn law_wheels_turn_what_listens(
    view: crate::view::ViewModel,
    workspace: crate::model::WorkspaceDump,
    terminal_id: TerminalId,
    pane_id: PaneId,
    turn: WheelTurn,
)
    requires
        view.selected() == Some(workspace),
        crate::model::terminal_in_tabs(workspace.tabs@, pane_id) == Some(terminal_id),
    ensures
        ({
            let reports = turn.modes.mouse_reporting && view.config.mouse_reporting;
            let keys = turn.modes.alternate_screen && turn.modes.alternate_scroll;
            let outcome = view.wheel_outcome(pane_id, turn);
            let wheel = crate::mouse::scroll_input_kind(
                turn.in_pixels,
                turn.phase,
                view.scrolling.active_trackpad_scrolls.contains(terminal_id.raw),
            ) == TerminalScrollInputKind::MouseWheel;
            &&& !turn.moves ==> outcome == WheelOutcome::Ignored
            &&& turn.moves && (reports || keys) ==> outcome == WheelOutcome::Sent
            &&& turn.moves && !reports && !keys && turn.more_than_a_row && wheel ==> outcome
                == (WheelOutcome::Notch { terminal_id })
            &&& turn.moves && !reports && !keys && !(turn.more_than_a_row && wheel) ==> outcome
                == (WheelOutcome::Glide { terminal_id })
        }),
{
}

/// What a listening program gets of a turn of the wheel: the reports of the
/// lines, or the cursor keys for them, from the pane under the pointer.
pub proof fn law_programs_get_the_lines_of_the_wheel(
    view: crate::view::ViewModel,
    connection: crate::view::WorkspaceConnection,
    workspace: crate::model::WorkspaceDump,
    terminal_id: TerminalId,
    pane_id: PaneId,
    turn: WheelTurn,
    bytes: Seq<u8>,
)
    requires
        view.connection(view.active_connection) == Some(connection),
        view.selected() == Some(workspace),
        crate::model::terminal_in_tabs(workspace.tabs@, pane_id) == Some(terminal_id),
        turn.moves,
        turn.lines != 0,
        crate::mouse::wheel_report(turn.lines as int, turn.mouse, turn.modifiers, turn.modes) == Some(
            bytes,
        ),
    ensures
        ({
            let after = view.turning_wheel(pane_id, turn);
            let sent = after.effects[view.effects.len() as int + 1];
            let reports = turn.modes.mouse_reporting && view.config.mouse_reporting;
            let keys = turn.modes.alternate_screen && turn.modes.alternate_scroll;
            &&& reports ==> sent == (crate::command::EffectModel::Enqueue {
                transport: connection.client,
                command: crate::command::CommandModel::SendBytes {
                    terminal_id,
                    source: Some(pane_id),
                    bytes,
                },
            })
            &&& !reports && keys ==> sent == (crate::command::EffectModel::Enqueue {
                transport: connection.client,
                command: crate::command::CommandModel::SendText {
                    terminal_id,
                    source: Some(pane_id),
                    text: crate::keys::alternate_scroll_text(turn.lines as int, turn.modes),
                },
            })
            &&& reports || keys
                ==> !after.scrolling.scroll_accumulators.contains_key(terminal_id.raw)
            &&& reports || keys ==> after.effects.last()
                == crate::command::EffectModel::StopPropagation
            &&& !reports && !keys ==> after.effects == view.effects.push(
                crate::command::EffectModel::FocusWindow,
            )
        }),
{
}

/// The selected text is copied, where there is some in the terminal.
pub proof fn law_selected_text_is_copied(
    view: crate::view::ViewModel,
    terminal_id: TerminalId,
    selection: TerminalSelection,
    snapshot: TerminalSnapshot,
)
    requires
        view.selection == Some(selection),
        view.terminal_snapshot(terminal_id) == Some(snapshot),
        crate::selection::selected_cells(snapshot, selection) is Some,
    ensures
        ({
            let text = crate::selection::selected_text(snapshot, selection);
            &&& selection.terminal_id == terminal_id && text.len() > 0 ==> view.copying(
                terminal_id,
            ).effects == view.effects.push(crate::command::EffectModel::WriteClipboard { text })
            &&& selection.terminal_id != terminal_id || text.len() == 0 ==> view.copying(terminal_id)
                == view
        }),
{
}

/// A press on a pane gives it the focus here and on its server.
pub proof fn law_pressed_panes_take_the_focus(
    view: crate::view::ViewModel,
    connection: crate::view::WorkspaceConnection,
    pane_id: PaneId,
    pointer: TerminalPointer,
    modifiers: Modifiers,
)
    requires
        view.connection(view.active_connection) == Some(connection),
    ensures
        ({
            let after = view.pressing_pane(pane_id, pointer, modifiers);
            let count = after.effects.len();
            &&& after.focused_pane == Some(pane_id)
            &&& after.effects[view.effects.len() as int] == crate::command::EffectModel::FocusWindow
            &&& after.effects[count - 2] == (crate::command::EffectModel::Dispatch {
                transport: connection.client,
                connection_id: view.active_connection,
                command: crate::command::CommandModel::FocusPane { pane_id, towards: None },
            })
            &&& after.effects[count - 1] == crate::command::EffectModel::StopPropagation
            &&& connection.snapshot.terminal_in(pane_id) is None ==> after.selection is None
        }),
{
}

/// A pane whose terminal has another size than there is room for asks its server
/// for the room, where the window is active and has not asked for it yet.
pub proof fn law_panes_ask_for_their_room(
    view: crate::view::ViewModel,
    owner: TransportId,
    connection_id: ConnectionId,
    pane_id: PaneId,
    request: TerminalResizeRequest,
)
    ensures
        request.target != request.observed_size && !view.resize_requests.contains_key(
            (connection_id.raw, pane_id.raw),
        ) ==> view.measuring_pane(owner, connection_id, pane_id, request, true).effects
            == view.effects.push(
            crate::command::EffectModel::Run {
                transport: owner,
                command: crate::command::CommandModel::ResizeTerminal {
                    pane_id,
                    columns: request.target.columns,
                    lines: request.target.lines,
                },
            },
        ),
        request.target == request.observed_size ==> view.measuring_pane(
            owner,
            connection_id,
            pane_id,
            request,
            true,
        ).effects == view.effects,
        view.measuring_pane(owner, connection_id, pane_id, request, false).effects == view.effects,
{
}

/// A drag belongs to what was pressed first: the edge of the sidebar, a row of
/// it, a divider, the window, and else the terminal.
pub proof fn law_drags_belong_to_what_was_pressed(view: crate::view::ViewModel)
    ensures
        view.drag_kind() == DragKind::SidebarEdge <==> view.sidebar.dragging_sidebar,
        view.drag_kind() == DragKind::SidebarRow <==> !view.sidebar.dragging_sidebar
            && view.sidebar.sidebar_drag is Some,
        view.drag_kind() == DragKind::Divider <==> !view.sidebar.dragging_sidebar
            && view.sidebar.sidebar_drag is None && view.press.split_drag is Some,
        view.drag_kind() == DragKind::Window <==> !view.sidebar.dragging_sidebar
            && view.sidebar.sidebar_drag is None && view.press.split_drag is None
            && view.press.window_drag_start is Some,
{
}

/// The window is moved once the pointer went far with the left button held.
pub proof fn law_windows_move_with_the_left_button(
    view: crate::view::ViewModel,
    pressed: Option<MouseButton>,
    far: bool,
)
    ensures
        ({
            let moves = pressed == Some(MouseButton::Left) && far
                && view.press.window_drag_start is Some;
            let after = view.moving_window(pressed, far);
            &&& moves ==> after.press.window_drag_start is None && after.effects
                == view.effects.push(crate::command::EffectModel::StartWindowMove).push(
                crate::command::EffectModel::StopPropagation,
            )
            &&& !moves ==> after.press == view.press && after.effects == view.effects.push(
                crate::command::EffectModel::StopPropagation,
            )
        }),
{
}

/// While a selection is dragged near an edge, each frame scrolls on, takes the
/// end of the selection along and asks for the next frame. It ends where the
/// drag or the rows do.
pub proof fn law_autoscrolling_goes_on(
    view: crate::view::ViewModel,
    autoscroll: SelectionAutoscroll,
    edge: Option<EdgeProximity>,
    pointer: TerminalPointer,
    delta: i64,
)
    requires
        view.has_application,
        view.press.selection_autoscroll == Some(autoscroll),
    ensures
        view.press.dragging_terminal == Some(autoscroll.terminal_id) && view.autoscroll_delta(
            autoscroll.terminal_id,
            edge,
        ) == Some(delta) ==> {
            let after = view.autoscroll_frame(edge, pointer);
            let scrolled = crate::command::EffectModel::ScrollBy {
                connection_id: view.active_connection,
                terminal_id: autoscroll.terminal_id,
                delta,
            };
            &&& after.effects.last() == crate::command::EffectModel::RequestAutoscrollFrame
            &&& after.effects.contains(scrolled)
            &&& after.press.selection_autoscroll == Some(autoscroll)
            &&& after.press.selection_autoscroll_frame_pending
            &&& after.selection == view.selecting_to(autoscroll.terminal_id, pointer).selection
        },
        view.press.dragging_terminal != Some(autoscroll.terminal_id) || view.autoscroll_delta(
            autoscroll.terminal_id,
            edge,
        ) is None ==> {
            let after = view.autoscroll_frame(edge, pointer);
            &&& after.press.selection_autoscroll is None
            &&& !after.press.selection_autoscroll_frame_pending
            &&& after.effects == view.effects
            &&& after.selection == view.selection
        },
{
    reveal(crate::view::ViewModel::endpoint_under);
    let terminal_id = autoscroll.terminal_id;
    let scrolled = crate::command::EffectModel::ScrollBy {
        connection_id: view.active_connection,
        terminal_id,
        delta,
    };
    let come = crate::view::ViewModel {
        press: crate::view::PressModel {
            selection_autoscroll_frame_pending: false,
            ..view.press
        },
        ..view
    };
    let moved = come.scrolling_by(terminal_id, delta);
    let place = moved.effects.len() - 1;
    assert(moved.effects[place] == scrolled);
    assert(moved.selecting_to(terminal_id, pointer).effects[place] == scrolled);
    assert(moved.selecting_to(terminal_id, pointer).asking_autoscroll_frame().effects[place]
        == scrolled);
}

/// A pointer that moves with the left button held moves the selection that was
/// started, and scrolls near an edge; without the button it does nothing to it.
pub proof fn law_moving_pointers_select(
    view: crate::view::ViewModel,
    terminal_id: TerminalId,
    position: PointerPosition,
    pressed: Option<MouseButton>,
    modifiers: Modifiers,
    pointer: TerminalPointer,
    edge: Option<EdgeProximity>,
)
    requires
        view.press.dragging_terminal == Some(terminal_id),
        view.press.reported_mouse is None,
    ensures
        ({
            let after = view.moving_over_terminal(position, pressed, modifiers, pointer, edge);
            let held = pressed == Some(MouseButton::Left);
            let delta = view.autoscroll_delta(terminal_id, edge);
            &&& held ==> after.selection == view.selecting_to(terminal_id, pointer).selection
            &&& held && delta is None ==> after.press.selection_autoscroll is None
            &&& held && delta is Some ==> after.press.selection_autoscroll == Some(
                SelectionAutoscroll { terminal_id, position },
            ) && after.press.selection_autoscroll_frame_pending
            &&& !held ==> after.selection == view.selection && after.effects == view.effects
                && after.press.selection_autoscroll is None
            &&& (crate::view::ViewModel {
                press: crate::view::PressModel { dragging_terminal: None, ..view.press },
                ..view
            }).moving_over_terminal(position, pressed, modifiers, pointer, edge).effects
                == view.effects
        }),
{
    reveal(crate::view::ViewModel::endpoint_under);
}

/// A release ends what was dragged: the edge of the sidebar, a row, a divider,
/// or the selection, whose end it leaves under the pointer.
pub proof fn law_releases_end_what_was_dragged(
    view: crate::view::ViewModel,
    modifiers: Modifiers,
    pointer: TerminalPointer,
    terminal_id: TerminalId,
)
    ensures
        ({
            let after = view.releasing(modifiers, pointer);
            let edge = view.sidebar.dragging_sidebar;
            let row = !edge && view.sidebar.sidebar_drag is Some;
            let divider = !edge && !row && view.press.split_drag is Some;
            let selects = !edge && !row && !divider && view.press.reported_mouse is None
                && view.press.dragging_terminal == Some(terminal_id) && view.config.selection;
            &&& after.press.window_drag_start is None
            &&& edge ==> !after.sidebar.dragging_sidebar && after.effects == view.effects.push(
                crate::command::EffectModel::Notify,
            ).push(crate::command::EffectModel::StopPropagation)
            &&& row ==> after.sidebar.sidebar_drag is None
            &&& divider ==> after.press.split_drag is None
            &&& selects ==> after.press.dragging_terminal is None
                && after.press.selection_autoscroll is None && after.selection
                == view.selecting_to(terminal_id, pointer).selection
        }),
{
    reveal(crate::view::ViewModel::releasing_press);
    reveal(crate::view::ViewModel::endpoint_under);
}

/// Fingers are on a terminal from the start of their gesture to its end; a
/// wheel has no gesture.
pub proof fn law_gestures_start_and_end(
    view: crate::view::ViewModel,
    terminal_id: TerminalId,
    turn: WheelTurn,
    key: u128,
)
    ensures
        ({
            let before = view.scrolling.active_trackpad_scrolls;
            let after = view.gesturing(terminal_id, turn).scrolling.active_trackpad_scrolls;
            &&& key != terminal_id.raw ==> after.contains(key) == before.contains(key)
            &&& turn.phase == TouchPhase::Started && turn.in_pixels ==> after.contains(
                terminal_id.raw,
            )
            &&& turn.phase == TouchPhase::Ended || turn.phase == TouchPhase::Cancelled
                ==> !after.contains(terminal_id.raw)
            &&& turn.phase == TouchPhase::Moved || (turn.phase == TouchPhase::Started
                && !turn.in_pixels) ==> after == before
        }),
{
}

} // verus!
