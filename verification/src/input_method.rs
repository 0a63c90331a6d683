//! Text that comes from an input method.

use crate::ids::TerminalId;
use crate::terminal::terminal_cursor_columns;
use crate::terminal::terminal_cursor_position;
use crate::view::WorkspaceView;
use std::ops::Range;
use vstd::prelude::*;

verus! {

impl crate::view::ViewModel {
    /// The terminal that an input method works on.
    pub open spec fn input_terminal(self) -> Option<TerminalId> {
        match self.ime.terminal {
            Some(terminal_id) => Some(terminal_id),
            None => self.active_terminal(),
        }
    }

    /// There is something to type into.
    pub open spec fn takes_text(self) -> bool {
        self.active_terminal() is Some || self.ime.terminal is Some
    }

    /// With an input method working on the terminal that has the focus.
    pub open spec fn composing_in(self, fallback: TerminalId) -> Self {
        crate::view::ViewModel {
            ime: crate::ime::ImeModel {
                terminal: Some(
                    match self.active_terminal() {
                        Some(terminal_id) => terminal_id,
                        None => fallback,
                    },
                ),
                ..self.ime
            },
            ..self
        }
    }

    /// With the composition dropped.
    pub open spec fn unmarking(self) -> Self {
        crate::view::ViewModel {
            ime: self.ime.unmarked(),
            overlay: crate::view::OverlayModel {
                field: if self.edits_text() {
                    self.overlay.field.with_composition(Seq::empty())
                } else {
                    self.overlay.field
                },
                ..self.overlay
            },
            ..self
        }.notified()
    }

    /// With a text committed to the open dialog.
    pub open spec fn committing_to_dialog(self, text: Seq<char>) -> Self {
        crate::view::ViewModel {
            ime: self.ime.unmarked(),
            overlay: crate::view::OverlayModel {
                field: self.overlay.field.with_committed(text),
                remote_connection_error: None,
                ..self.overlay
            },
            ..self
        }.notified()
    }

    /// With a text committed to a terminal.
    pub open spec fn committing_to_terminal(self, terminal_id: TerminalId, text: Seq<char>) -> Self {
        let committed = crate::view::ViewModel {
            selection: None,
            ime: crate::ime::ImeModel { terminal: Some(terminal_id), ..self.ime }.unmarked(),
            ..self
        };
        (if text.len() > 0 {
            committed.typing(terminal_id, text)
        } else {
            committed
        }).notified()
    }

    /// With a text committed. An open dialog gets it, not the terminal below.
    pub open spec fn committing(self, text: Seq<char>) -> Self {
        if self.edits_text() {
            self.committing_to_dialog(text)
        } else {
            match self.input_terminal() {
                Some(terminal_id) => self.committing_to_terminal(terminal_id, text),
                None => self,
            }
        }
    }

    /// With a text being composed in the open dialog.
    pub open spec fn composing_in_dialog(self, text: Seq<char>) -> Self {
        crate::view::ViewModel {
            ime: crate::ime::ImeModel {
                terminal: self.active_terminal(),
                marked: text,
                selected: (0, crate::text::unit_len(text)),
            },
            overlay: crate::view::OverlayModel {
                field: crate::field::FieldModel {
                    caret_visible: true,
                    ..self.overlay.field.with_composition(text)
                },
                ..self.overlay
            },
            ..self
        }.notified()
    }

    /// With a text being composed in a terminal. The terminal shows its live
    /// bottom, where the text appears.
    pub open spec fn composing_in_terminal(
        self,
        terminal_id: TerminalId,
        range: Option<Range<usize>>,
        text: Seq<char>,
        selected: Option<Range<usize>>,
    ) -> Self {
        let composed = crate::view::ViewModel {
            ime: self.ime.composed(terminal_id, range, text, selected),
            ..self
        };
        (if text.len() > 0 {
            composed.at_live_bottom(terminal_id)
        } else {
            crate::view::ViewModel { selection: None, ..composed }
        }).notified()
    }

    /// With a text being composed.
    pub open spec fn marking(
        self,
        range: Option<Range<usize>>,
        text: Seq<char>,
        selected: Option<Range<usize>>,
    ) -> Self {
        if self.edits_text() {
            self.composing_in_dialog(text)
        } else {
            match self.input_terminal() {
                Some(terminal_id) => self.composing_in_terminal(terminal_id, range, text, selected),
                None => self,
            }
        }
    }

    /// The cell where the composition appears, and how many columns it covers.
    pub open spec fn composition_cell(
        self,
        terminal_id: TerminalId,
        fallback: (usize, usize),
    ) -> ((int, int), int) {
        match self.terminal_snapshot(terminal_id) {
            Some(snapshot) => {
                let cursor = snapshot.cursor_position();
                ((cursor.0 as int, cursor.1 as int), snapshot.cursor_columns() as int)
            },
            None => ((fallback.0 as int, fallback.1 as int), 1),
        }
    }

    /// How far into the composition a cell of the grid is.
    pub open spec fn composition_offset(self, terminal_id: TerminalId, row: int, column: int) -> int {
        let (cursor, _) = self.composition_cell(terminal_id, (0, 0));
        if row == cursor.0 && column >= cursor.1 {
            crate::arith::smaller_of(self.ime.units() as int, column - cursor.1)
        } else {
            0
        }
    }
}

impl WorkspaceView {
    /// The composition that is shown in a terminal.
    pub fn ime_marked_text_for(&self, terminal_id: TerminalId) -> (text: Option<String>)
        ensures
            match text {
                Some(text) => self@.ime.terminal == Some(terminal_id) && self@.ime.marked.len() > 0
                    && text@ == self@.ime.marked,
                None => self@.ime.terminal != Some(terminal_id) || self@.ime.marked.len() == 0,
            },
    {
        if self.ime.terminal == Some(terminal_id) && !self.ime.marked_text.as_str().is_empty() {
            Some(self.ime.marked_text.clone())
        } else {
            None
        }
    }

    /// The terminal that an input method works on.
    pub fn input_terminal(&self) -> (terminal_id: Option<TerminalId>)
        ensures
            terminal_id == self@.input_terminal(),
    {
        match self.ime.terminal {
            Some(terminal_id) => Some(terminal_id),
            None => self.active_terminal_id(),
        }
    }

    /// Whether there is something to type into.
    pub fn accepts_text_input(&self) -> (accepts: bool)
        ensures
            accepts == self@.takes_text(),
    {
        self.active_terminal_id().is_some() || self.ime.terminal.is_some()
    }

    /// Whether an input method on a terminal has something to type into.
    pub fn accepts_text_input_for(&self, terminal_id: TerminalId) -> (accepts: bool)
        ensures
            accepts == (self@.active_terminal() is Some || self@.ime.terminal == Some(terminal_id)),
    {
        self.active_terminal_id().is_some() || self.ime.terminal == Some(terminal_id)
    }

    /// Lets an input method work on the terminal that has the focus, or on
    /// the one it was opened for.
    pub fn attach_input_method(&mut self, fallback: TerminalId)
        ensures
            final(self)@ == old(self)@.composing_in(fallback),
            old(self)@.wf() ==> final(self)@.wf(),
    {
        let terminal_id: TerminalId = match self.active_terminal_id() {
            Some(terminal_id) => terminal_id,
            None => fallback,
        };
        self.ime.terminal = Some(terminal_id);
    }

    /// The part of the composition in a range, and the range as far as there
    /// is text.
    pub fn text_for_range(&self, range: Range<usize>) -> (part: (String, Range<usize>))
        ensures
            ({
                let cut = crate::text::normalized_range(range, self@.ime.units());
                &&& (part.1.start as nat, part.1.end as nat) == cut
                &&& part.0@ == crate::ime::text_between(self@.ime.marked, cut.0, cut.1)
            }),
    {
        self.ime.text_for_range(range)
    }

    /// The selected part of the composition.
    pub fn selected_text_range(&self) -> (range: Option<Range<usize>>)
        ensures
            match range {
                Some(range) => self@.takes_text() && (range.start as nat, range.end as nat)
                    == crate::text::normalized_range(
                    (Range {
                        start: self@.ime.selected.0 as usize,
                        end: self@.ime.selected.1 as usize,
                    }),
                    self@.ime.units(),
                ),
                None => !self@.takes_text(),
            },
    {
        if !self.accepts_text_input() {
            return None;
        }
        Some(self.ime.selection())
    }

    /// The range of the composition, where there is one.
    pub fn marked_text_range(&self) -> (range: Option<Range<usize>>)
        ensures
            match range {
                Some(range) => self@.ime.marked.len() > 0 && self@.ime.terminal is Some
                    && range.start == 0 && range.end == self@.ime.units(),
                None => self@.ime.marked.len() == 0 || self@.ime.terminal is None,
            },
    {
        self.ime.marked_range()
    }

    /// The length of the text that an input method can edit.
    pub fn text_length_utf16(&self) -> (units: Option<usize>)
        ensures
            match units {
                Some(units) => self@.takes_text() && units == self@.ime.units(),
                None => !self@.takes_text(),
            },
    {
        if self.accepts_text_input() {
            Some(self.ime.length())
        } else {
            None
        }
    }

    /// The range that an input method can edit.
    pub fn text_input_editable_range(&self) -> (range: Option<Range<usize>>)
        ensures
            match range {
                Some(range) => self@.takes_text() && range.start == 0 && range.end
                    == self@.ime.units(),
                None => !self@.takes_text(),
            },
    {
        match self.text_length_utf16() {
            Some(units) => Some(0..units),
            None => None,
        }
    }

    /// Drops the composition.
    pub fn unmark_text(&mut self)
        requires
            old(self)@.wf(),
        ensures
            final(self)@ == old(self)@.unmarking(),
            final(self)@.wf(),
    {
        if self.dialog_is_text_input() {
            proof {
                reveal_strlit("");
                assert(""@ =~= Seq::<char>::empty());
            }
            self.overlay.field.compose("");
        }
        self.ime.reset_marked_text();
        self.notify();
    }

    fn commit_to_dialog(&mut self, text: &str)
        requires
            old(self)@.wf(),
        ensures
            final(self)@ == old(self)@.committing_to_dialog(text@),
            final(self)@.wf(),
    {
        self.overlay.field.commit(text);
        self.overlay.remote_connection_error = None;
        self.ime.reset_marked_text();
        self.notify();
    }

    fn commit_to_terminal(&mut self, terminal_id: TerminalId, text: &str)
        ensures
            final(self)@ == old(self)@.committing_to_terminal(terminal_id, text@),
            old(self)@.wf() ==> final(self)@.wf(),
    {
        self.ime.terminal = Some(terminal_id);
        self.selection = None;
        self.ime.reset_marked_text();
        if !text.is_empty() {
            self.focus_terminal_live_bottom(terminal_id);
            self.send_text(terminal_id, None, text.to_owned());
        }
        self.notify();
    }

    /// Commits a text.
    pub fn replace_text_in_range(&mut self, text: &str)
        requires
            old(self)@.wf(),
        ensures
            final(self)@ == old(self)@.committing(text@),
            final(self)@.wf(),
    {
        if self.dialog_is_text_input() {
            self.commit_to_dialog(text);
        } else if let Some(terminal_id) = self.input_terminal() {
            self.commit_to_terminal(terminal_id, text);
        }
    }

    fn compose_in_dialog(&mut self, text: &str)
        requires
            old(self)@.wf(),
        ensures
            final(self)@ == old(self)@.composing_in_dialog(text@),
            final(self)@.wf(),
    {
        let terminal = self.active_terminal_id();
        self.overlay.field.compose(text);
        self.overlay.field.caret_visible = true;
        self.ime.terminal = terminal;
        self.ime.marked_text = text.to_owned();
        self.ime.selected_range = 0..crate::text::utf16_len(text);
        self.notify();
    }

    fn compose_in_terminal(
        &mut self,
        terminal_id: TerminalId,
        range: Option<Range<usize>>,
        text: &str,
        selected: Option<Range<usize>>,
    )
        ensures
            final(self)@ == old(self)@.composing_in_terminal(terminal_id, range, text@, selected),
            old(self)@.wf() ==> final(self)@.wf(),
    {
        self.ime.compose(terminal_id, range, text, selected);
        if !text.is_empty() {
            self.focus_terminal_live_bottom(terminal_id);
        } else {
            self.selection = None;
        }
        self.notify();
    }

    /// Replaces a part of the composition.
    pub fn replace_and_mark_text_in_range(
        &mut self,
        range: Option<Range<usize>>,
        text: &str,
        selected: Option<Range<usize>>,
    )
        requires
            old(self)@.wf(),
        ensures
            final(self)@ == old(self)@.marking(range, text@, selected),
            final(self)@.wf(),
    {
        if self.dialog_is_text_input() {
            self.compose_in_dialog(text);
        } else if let Some(terminal_id) = self.input_terminal() {
            self.compose_in_terminal(terminal_id, range, text, selected);
        }
    }

    /// Selects a part of the composition.
    pub fn set_selected_text_range(&mut self, range: Range<usize>)
        ensures
            final(self)@ == (crate::view::ViewModel {
                ime: crate::ime::ImeModel {
                    selected: crate::text::normalized_range(range, old(self)@.ime.units()),
                    ..old(self)@.ime
                },
                ..old(self)@
            }).notified(),
            old(self)@.wf() ==> final(self)@.wf(),
    {
        self.ime.select(range);
        self.notify();
    }

    /// The cell where the composition appears, and how many columns it covers.
    pub fn composition_cell(&self, terminal_id: TerminalId, fallback: (usize, usize)) -> (cell: (
        (usize, usize),
        usize,
    ))
        ensures
            ({
                let (place, columns) = cell;
                ((place.0 as int, place.1 as int), columns as int) == self@.composition_cell(
                    terminal_id,
                    fallback,
                )
            }),
    {
        match self.terminal_snapshot_for(terminal_id) {
            Some(snapshot) => (
                terminal_cursor_position(snapshot),
                terminal_cursor_columns(snapshot),
            ),
            None => (fallback, 1),
        }
    }

    /// How far into the composition a cell of the grid is.
    pub fn character_index_for_cell(&self, terminal_id: TerminalId, row: usize, column: usize) -> (offset:
        usize)
        ensures
            offset == self@.composition_offset(terminal_id, row as int, column as int),
    {
        let (cursor, _) = self.composition_cell(terminal_id, (0, 0));
        if row == cursor.0 && column >= cursor.1 {
            let units: usize = self.ime.length();
            let distance: usize = column - cursor.1;
            if units <= distance {
                units
            } else {
                distance
            }
        } else {
            0
        }
    }
}

/// Text that an input method composes reaches a terminal once: composing sends
/// nothing, committing sends the text that was committed.
pub proof fn law_compositions_are_sent_once(
    view: crate::view::ViewModel,
    terminal_id: TerminalId,
    range: Option<Range<usize>>,
    text: Seq<char>,
    selected: Option<Range<usize>>,
    committed: Seq<char>,
)
    requires
        committed.len() > 0,
    ensures
        crate::keyboard::extends_quietly(
            view.effects,
            view.composing_in_terminal(terminal_id, range, text, selected).effects,
        ),
        ({
            let after = view.committing_to_terminal(terminal_id, committed).effects;
            &&& after.len() >= 2
            &&& after[after.len() - 2] == crate::command::EffectModel::Enqueue {
                transport: view.active_transport(),
                command: crate::command::CommandModel::SendText {
                    terminal_id,
                    source: None,
                    text: committed,
                },
            }
            &&& crate::keyboard::extends_quietly(view.effects, after.take(after.len() - 2))
        }),
{
}

/// After a commit nothing is composed any more.
pub proof fn law_commits_end_compositions(view: crate::view::ViewModel, text: Seq<char>)
    requires
        view.edits_text() || view.input_terminal() is Some,
    ensures
        view.committing(text).ime.marked.len() == 0,
{
}

/// While a dialog with a text is open, an input method writes there and never
/// to the terminal below.
pub proof fn law_dialogs_take_the_text(
    view: crate::view::ViewModel,
    range: Option<Range<usize>>,
    text: Seq<char>,
    selected: Option<Range<usize>>,
)
    requires
        view.edits_text(),
    ensures
        view.committing(text).effects == view.effects.push(crate::command::EffectModel::Notify),
        view.marking(range, text, selected).effects == view.effects.push(
            crate::command::EffectModel::Notify,
        ),
        view.committing(text).overlay.field == view.overlay.field.with_committed(text),
{
}

/// Text goes to the terminal in which it is being composed, or else to the one
/// that has the focus; it is sent as it is, over the channel of that server.
pub proof fn law_commits_go_to_the_composing_terminal(
    view: crate::view::ViewModel,
    terminal_id: TerminalId,
    connection: crate::view::WorkspaceConnection,
    text: Seq<char>,
)
    requires
        view.overlay.dialog is None,
        view.ime.terminal == Some(terminal_id) || (view.ime.terminal is None
            && view.active_terminal() == Some(terminal_id)),
        view.connection(view.active_connection) == Some(connection),
        text.len() > 0,
    ensures
        ({
            let after = view.committing(text);
            &&& after.effects.len() >= 2
            &&& after.effects.last() == crate::command::EffectModel::Notify
            &&& after.effects[after.effects.len() - 2] == crate::command::EffectModel::Enqueue {
                transport: connection.client,
                command: crate::command::CommandModel::SendText {
                    terminal_id,
                    source: None,
                    text,
                },
            }
            &&& after.ime.marked.len() == 0
            &&& after.ime.terminal == Some(terminal_id)
            &&& after.selection is None
        }),
{
}

/// While text is composed for a terminal it is shown there and sent nowhere.
pub proof fn law_compositions_are_kept(
    view: crate::view::ViewModel,
    terminal_id: TerminalId,
    text: Seq<char>,
)
    requires
        view.overlay.dialog is None,
        view.ime.terminal == Some(terminal_id) || (view.ime.terminal is None
            && view.active_terminal() == Some(terminal_id)),
        crate::text::unit_len(text) <= usize::MAX,
    ensures
        ({
            let after = view.marking(None, text, None);
            &&& after.ime.terminal == Some(terminal_id)
            &&& after.ime.marked == text
            &&& after.effects.last() == crate::command::EffectModel::Notify
            &&& crate::keyboard::extends_quietly(view.effects, after.effects)
            &&& after.selection is None
        }),
{
    crate::ime::law_compositions_replace_each_other(
        view.ime,
        terminal_id,
        text,
        Range { start: 0, end: 0 },
    );
}

/// In a dialog, text is composed and committed at the caret of its line.
pub proof fn law_dialog_lines_take_compositions(
    view: crate::view::ViewModel,
    range: Option<Range<usize>>,
    text: Seq<char>,
    selected: Option<Range<usize>>,
)
    requires
        view.overlay.dialog == Some(crate::view::DialogState::ConnectRemote),
    ensures
        view.marking(range, text, selected).overlay.field.text
            == view.overlay.field.with_composition(text).text,
        view.marking(range, text, selected).overlay.field.caret
            == view.overlay.field.with_composition(text).caret,
        view.marking(range, text, selected).ime.marked == text,
        view.committing(text).overlay.field.text == view.overlay.field.with_committed(text).text,
        view.committing(text).overlay.remote_connection_error is None,
        view.committing(text).ime.marked.len() == 0,
        view.unmarking().overlay.field.text == view.overlay.field.with_composition(
            Seq::empty(),
        ).text,
{
}

/// A point in the line of the cursor, right of it, lies as many units into the
/// composition, up to its end; any other point lies at its start.
pub proof fn law_points_find_their_place_in_the_composition(
    view: crate::view::ViewModel,
    terminal_id: TerminalId,
    snapshot: crate::terminal::TerminalSnapshot,
    row: int,
    column: int,
    fallback: (usize, usize),
)
    requires
        view.terminal_snapshot(terminal_id) == Some(snapshot),
    ensures
        ({
            let (line, start) = snapshot.cursor_position();
            let units = crate::text::unit_len(view.ime.marked);
            let offset = view.composition_offset(terminal_id, row, column);
            &&& row != line || column < start ==> offset == 0
            &&& row == line && start <= column <= start + units ==> offset == column - start
            &&& row == line && column > start + units ==> offset == units
            &&& view.composition_cell(terminal_id, fallback).0 == (line as int, start as int)
        }),
{
}

/// Text is taken where there is a terminal to take it, the focused one before
/// any other; what is composed in a dialog is selected whole.
pub proof fn law_text_is_taken_by_terminals(
    view: crate::view::ViewModel,
    fallback: TerminalId,
    text: Seq<char>,
)
    ensures
        view.takes_text() <==> view.active_terminal() is Some || view.ime.terminal is Some,
        view.active_terminal() is Some ==> view.composing_in(fallback).ime.terminal
            == view.active_terminal(),
        view.active_terminal() is None ==> view.composing_in(fallback).ime.terminal == Some(
            fallback,
        ),
        view.composing_in_dialog(text).ime.selected == (0nat, crate::text::unit_len(text)),
        view.composing_in_dialog(text).effects == view.effects.push(
            crate::command::EffectModel::Notify,
        ),
        view.overlay.dialog is None && view.ime.terminal is None && view.active_terminal() is None
            ==> view.committing(text) == view && view.marking(None, text, None) == view,
{
}

} // verus!
