//! Keys that reach a window.

use crate::command::AppCommand;
use crate::command::Effect;
use crate::command::FocusDirection;
use crate::dialogs::DestinationCheck;
use crate::ids::TerminalId;
use crate::keys::terminal_input_for_keystroke_with_modes;
use crate::keys::terminal_key_uses_text_input_handler;
use crate::keys::terminal_special_key_input_with_modes;
use crate::keys::Keystroke;
use crate::view::WorkspaceView;
use vstd::prelude::*;

verus! {

/// Rows by which a page key scrolls.
pub const PAGE_ROWS: i64 = 20;

/// A shortcut of the window.
#[derive(Clone, Copy, PartialEq, Eq, Structural, Debug)]
pub enum Shortcut {
    FocusLeft,
    FocusRight,
    FocusUp,
    FocusDown,
    ClosePane,
    Paste,
    CopyOrInterrupt,
    Eof,
    ScrollPageUp,
    ScrollPageDown,
}

impl Shortcut {
    pub open spec fn fallback_spec(self) -> Seq<char> {
        match self {
            Shortcut::FocusLeft => "cmd-h"@,
            Shortcut::FocusRight => "cmd-l"@,
            Shortcut::FocusUp => "cmd-k"@,
            Shortcut::FocusDown => "cmd-j"@,
            Shortcut::ClosePane => "cmd-shift-w"@,
            Shortcut::Paste => "cmd-v"@,
            Shortcut::CopyOrInterrupt => "cmd-c"@,
            Shortcut::Eof => "cmd-d"@,
            Shortcut::ScrollPageUp => "shift-pageup"@,
            Shortcut::ScrollPageDown => "shift-pagedown"@,
        }
    }

    /// The keystroke that holds where the settings give none that can be used.
    pub fn fallback(self) -> (text: String)
        ensures
            text@ == self.fallback_spec(),
    {
        match self {
            Shortcut::FocusLeft => "cmd-h".to_owned(),
            Shortcut::FocusRight => "cmd-l".to_owned(),
            Shortcut::FocusUp => "cmd-k".to_owned(),
            Shortcut::FocusDown => "cmd-j".to_owned(),
            Shortcut::ClosePane => "cmd-shift-w".to_owned(),
            Shortcut::Paste => "cmd-v".to_owned(),
            Shortcut::CopyOrInterrupt => "cmd-c".to_owned(),
            Shortcut::Eof => "cmd-d".to_owned(),
            Shortcut::ScrollPageUp => "shift-pageup".to_owned(),
            Shortcut::ScrollPageDown => "shift-pagedown".to_owned(),
        }
    }
}

/// Which shortcuts a keystroke is.
#[derive(Clone, Copy, PartialEq, Eq, Structural, Debug)]
pub struct ShortcutMatches {
    pub focus_left: bool,
    pub focus_right: bool,
    pub focus_up: bool,
    pub focus_down: bool,
    pub close_pane: bool,
    pub paste: bool,
    pub copy_or_interrupt: bool,
    pub eof: bool,
    pub scroll_page_up: bool,
    pub scroll_page_down: bool,
}

impl ShortcutMatches {
    /// The direction in which the focus is to move.
    pub open spec fn direction(self) -> Option<FocusDirection> {
        if self.focus_left {
            Some(FocusDirection::Left)
        } else if self.focus_right {
            Some(FocusDirection::Right)
        } else if self.focus_up {
            Some(FocusDirection::Up)
        } else if self.focus_down {
            Some(FocusDirection::Down)
        } else {
            None
        }
    }

    pub fn focus_direction(&self) -> (direction: Option<FocusDirection>)
        ensures
            direction == self.direction(),
    {
        if self.focus_left {
            Some(FocusDirection::Left)
        } else if self.focus_right {
            Some(FocusDirection::Right)
        } else if self.focus_up {
            Some(FocusDirection::Up)
        } else if self.focus_down {
            Some(FocusDirection::Down)
        } else {
            None
        }
    }
}

/// A pasted text as a terminal gets it: in brackets, where it wants them.
pub open spec fn pasted(text: Seq<char>, bracketed: bool) -> Seq<char> {
    if bracketed {
        "\u{1b}[200~"@ + text + "\u{1b}[201~"@
    } else {
        text
    }
}

/// A pasted text as a terminal gets it.
pub fn pasted_text(text: String, bracketed: bool) -> (sent: String)
    ensures
        sent@ == pasted(text@, bracketed),
{
    if bracketed {
        let mut sent = "\u{1b}[200~".to_owned();
        sent.append(text.as_str());
        sent.append("\u{1b}[201~");
        sent
    } else {
        text
    }
}

impl crate::view::ViewModel {
    /// With the focus to be moved to a neighbour.
    pub open spec fn moving_focus(self, direction: FocusDirection) -> Self {
        match self.focused_pane {
            Some(pane_id) => self.dispatching(
                crate::command::CommandModel::FocusPane { pane_id, towards: Some(direction) },
            ),
            None => self,
        }
    }

    pub open spec fn closing_pane(self) -> Self {
        match self.focused_pane {
            Some(pane_id) => self.dispatching(crate::command::CommandModel::ClosePane { pane_id }),
            None => self,
        }
    }

    /// With the clipboard to be sent to the terminal that has the focus.
    pub open spec fn pasting(self) -> Self {
        match self.active_terminal() {
            Some(terminal_id) => {
                let bracketed = self.active_modes().bracketed_paste && self.config.bracketed_paste;
                self.at_live_bottom(terminal_id).asking_paste(terminal_id, bracketed)
            },
            None => self,
        }
    }

    pub open spec fn asking_paste(self, terminal_id: TerminalId, bracketed: bool) -> Self {
        self.asking(
            crate::command::EffectModel::Paste {
                transport: self.active_transport(),
                terminal_id,
                bracketed,
            },
        )
    }

    /// With text typed into a terminal.
    pub open spec fn typing(self, terminal_id: TerminalId, text: Seq<char>) -> Self {
        self.at_live_bottom(terminal_id).sending_text(terminal_id, None, text)
    }

    /// With the selection copied, or the program in the terminal interrupted
    /// where nothing is selected.
    pub open spec fn copying_or_interrupting(self) -> Self {
        match self.active_terminal() {
            Some(terminal_id) => if self.copied_text(terminal_id) is Some {
                self.copying(terminal_id)
            } else {
                self.typing(terminal_id, "\u{3}"@)
            },
            None => self,
        }
    }

    /// With the end of input sent.
    pub open spec fn ending_input(self) -> Self {
        match self.active_terminal() {
            Some(terminal_id) => self.typing(terminal_id, "\u{4}"@),
            None => self,
        }
    }

    /// With a terminal scrolled by a page.
    pub open spec fn paging(self, terminal_id: TerminalId, up: bool) -> Self {
        crate::view::ViewModel {
            scrolling: crate::view::ScrollingModel {
                scroll_accumulators: self.scrolling.scroll_accumulators.remove(terminal_id.raw),
                ..self.scrolling
            },
            ..self
        }.scrolling_by(
            terminal_id,
            if up {
                PAGE_ROWS
            } else {
                (-PAGE_ROWS) as i64
            },
        )
    }

    /// The text that a keystroke sends by itself to the terminal that has the
    /// focus. What is typed through an input method comes another way.
    pub open spec fn key_text(self, keystroke: crate::keys::KeystrokeModel) -> Option<Seq<char>> {
        if crate::keys::types_text(keystroke) && self.input_handler_terminal is Some {
            None
        } else {
            crate::keys::keystroke_input(keystroke, self.active_modes())
        }
    }

    /// With a keystroke sent to a terminal. One that has an encoding of its
    /// own goes nowhere else.
    pub open spec fn sending_key(
        self,
        terminal_id: TerminalId,
        keystroke: crate::keys::KeystrokeModel,
    ) -> Self {
        match self.key_text(keystroke) {
            Some(text) => {
                let sent = self.at_live_bottom(terminal_id).without_ime().sending_text(
                    terminal_id,
                    None,
                    text,
                );
                if crate::keys::special_input(
                    keystroke.key,
                    keystroke.modifiers,
                    self.active_modes(),
                ) is Some {
                    sent.asking(crate::command::EffectModel::StopPropagation)
                } else {
                    sent
                }
            },
            None => self,
        }
    }

    /// With a keystroke that is none of the shortcuts of the window.
    pub open spec fn terminal_key(
        self,
        keystroke: crate::keys::KeystrokeModel,
        matches: ShortcutMatches,
    ) -> Self {
        match self.active_terminal() {
            Some(terminal_id) => if matches.scroll_page_up || matches.scroll_page_down {
                self.paging(terminal_id, matches.scroll_page_up)
            } else {
                self.sending_key(terminal_id, keystroke)
            },
            None => self,
        }
    }

    /// With a keystroke while nothing is on top of the window.
    pub open spec fn window_key(
        self,
        keystroke: crate::keys::KeystrokeModel,
        matches: ShortcutMatches,
    ) -> Self {
        match matches.direction() {
            Some(direction) => self.moving_focus(direction),
            None => if matches.close_pane {
                self.closing_pane()
            } else if matches.paste {
                self.pasting()
            } else if matches.copy_or_interrupt {
                self.copying_or_interrupting()
            } else if matches.eof {
                self.ending_input()
            } else {
                self.terminal_key(keystroke, matches)
            },
        }
    }

    /// With a keystroke. What is on top of the window gets it first.
    pub open spec fn key_down(
        self,
        keystroke: crate::keys::KeystrokeModel,
        matches: ShortcutMatches,
        check: DestinationCheck,
    ) -> Self {
        if self.overlay.dialog is Some {
            self.dialog_key(keystroke, check).asking(crate::command::EffectModel::StopPropagation)
        } else if self.overlay.context_menu is Some {
            crate::view::ViewModel {
                overlay: crate::view::OverlayModel { context_menu: None, ..self.overlay },
                ..self
            }.notified().asking(
                crate::command::EffectModel::StopPropagation,
            )
        } else if self.overlay.rename_target is Some {
            self.rename_key(keystroke).asking(crate::command::EffectModel::StopPropagation)
        } else {
            self.window_key(keystroke, matches)
        }
    }
}

impl WorkspaceView {
    fn move_focus(&mut self, direction: FocusDirection)
        ensures
            final(self)@ == old(self)@.moving_focus(direction),
            old(self)@.wf() ==> final(self)@.wf(),
    {
        if let Some(pane_id) = self.focused_pane {
            self.dispatch(AppCommand::FocusPane { pane_id, towards: Some(direction) });
        }
    }

    fn close_focused_pane(&mut self)
        ensures
            final(self)@ == old(self)@.closing_pane(),
            old(self)@.wf() ==> final(self)@.wf(),
    {
        if let Some(pane_id) = self.focused_pane {
            self.dispatch(AppCommand::ClosePane { pane_id });
        }
    }

    /// Sends the clipboard to the terminal that has the focus.
    pub fn paste_into_terminal(&mut self)
        ensures
            final(self)@ == old(self)@.pasting(),
            old(self)@.wf() ==> final(self)@.wf(),
    {
        if let Some(terminal_id) = self.active_terminal_id() {
            let bracketed = self.active_terminal_modes().bracketed_paste
                && self.config.bracketed_paste;
            self.focus_terminal_live_bottom(terminal_id);
            let transport = self.active_transport();
            self.ask(Effect::Paste { transport, terminal_id, bracketed });
        }
    }

    fn type_text(&mut self, terminal_id: TerminalId, text: String)
        ensures
            final(self)@ == old(self)@.typing(terminal_id, text@),
            old(self)@.wf() ==> final(self)@.wf(),
    {
        self.focus_terminal_live_bottom(terminal_id);
        self.send_text(terminal_id, None, text);
    }

    fn copy_or_interrupt(&mut self)
        requires
            old(self)@.wf(),
        ensures
            final(self)@ == old(self)@.copying_or_interrupting(),
            final(self)@.wf(),
    {
        if let Some(terminal_id) = self.active_terminal_id() {
            if !self.copy_terminal_selection(terminal_id) {
                self.type_text(terminal_id, "\u{3}".to_owned());
            }
        }
    }

    fn end_input(&mut self)
        ensures
            final(self)@ == old(self)@.ending_input(),
            old(self)@.wf() ==> final(self)@.wf(),
    {
        if let Some(terminal_id) = self.active_terminal_id() {
            self.type_text(terminal_id, "\u{4}".to_owned());
        }
    }

    fn scroll_page(&mut self, terminal_id: TerminalId, up: bool)
        ensures
            final(self)@ == old(self)@.paging(terminal_id, up),
            old(self)@.wf() ==> final(self)@.wf(),
    {
        self.scrolling.scroll_accumulators.remove(&terminal_id.raw);
        let rows: i64 = if up { PAGE_ROWS } else { -PAGE_ROWS };
        self.scroll_terminal_by(terminal_id, rows);
    }

    fn send_key(&mut self, terminal_id: TerminalId, keystroke: &Keystroke)
        ensures
            final(self)@ == old(self)@.sending_key(terminal_id, keystroke@),
            old(self)@.wf() ==> final(self)@.wf(),
    {
        let modes = self.active_terminal_modes();
        let text: String = match terminal_input_for_keystroke_with_modes(keystroke, modes) {
            Some(text) => text,
            None => {
                return;
            },
        };
        if terminal_key_uses_text_input_handler(keystroke) && self.input_handler_terminal.is_some() {
            return;
        }
        let special = terminal_special_key_input_with_modes(
            keystroke.key.as_str(),
            keystroke.modifiers,
            modes,
        ).is_some();
        self.focus_terminal_live_bottom(terminal_id);
        self.clear_ime();
        self.send_text(terminal_id, None, text);
        if special {
            self.ask(Effect::StopPropagation);
        }
    }

    fn handle_terminal_key(&mut self, keystroke: &Keystroke, matches: ShortcutMatches)
        ensures
            final(self)@ == old(self)@.terminal_key(keystroke@, matches),
            old(self)@.wf() ==> final(self)@.wf(),
    {
        if let Some(terminal_id) = self.active_terminal_id() {
            if matches.scroll_page_up || matches.scroll_page_down {
                self.scroll_page(terminal_id, matches.scroll_page_up);
            } else {
                self.send_key(terminal_id, keystroke);
            }
        }
    }

    fn handle_window_key(&mut self, keystroke: &Keystroke, matches: ShortcutMatches)
        requires
            old(self)@.wf(),
        ensures
            final(self)@ == old(self)@.window_key(keystroke@, matches),
            final(self)@.wf(),
    {
        if let Some(direction) = matches.focus_direction() {
            self.move_focus(direction);
        } else if matches.close_pane {
            self.close_focused_pane();
        } else if matches.paste {
            self.paste_into_terminal();
        } else if matches.copy_or_interrupt {
            self.copy_or_interrupt();
        } else if matches.eof {
            self.end_input();
        } else {
            self.handle_terminal_key(keystroke, matches);
        }
    }

    /// Handles a keystroke; `matches` tells which shortcuts it is, `check`
    /// what the text of the connect dialog is as an address.
    pub fn handle_key_down(
        &mut self,
        keystroke: &Keystroke,
        matches: ShortcutMatches,
        check: DestinationCheck,
    )
        requires
            old(self)@.wf(),
        ensures
            final(self)@ == old(self)@.key_down(keystroke@, matches, check),
            final(self)@.wf(),
    {
        if self.overlay.dialog.is_some() {
            self.handle_dialog_key(keystroke, check);
            self.ask(Effect::StopPropagation);
        } else if self.overlay.context_menu.is_some() {
            self.overlay.context_menu = None;
            self.notify();
            self.ask(Effect::StopPropagation);
        } else if self.overlay.rename_target.is_some() {
            self.handle_rename_key(keystroke);
            self.ask(Effect::StopPropagation);
        } else {
            self.handle_window_key(keystroke, matches);
        }
    }
}

/// Effects with some more that send nothing to a terminal.
pub open spec fn extends_quietly(
    before: Seq<crate::command::EffectModel>,
    after: Seq<crate::command::EffectModel>,
) -> bool {
    &&& before.len() <= after.len()
    &&& forall|i: int| 0 <= i < before.len() ==> #[trigger] after[i] == before[i]
    &&& forall|i: int| before.len() <= i < after.len() ==> !(#[trigger] after[i] is Enqueue)
}

proof fn lemma_confirming_is_quiet(view: crate::view::ViewModel, check: DestinationCheck)
    ensures
        extends_quietly(view.effects, view.confirming(check).effects),
{
}

proof fn lemma_edits_are_quiet(view: crate::view::ViewModel, field: crate::field::FieldModel)
    ensures
        extends_quietly(view.effects, view.edited(field).effects),
        extends_quietly(view.effects, view.caret_moved(field).effects),
{
}

proof fn lemma_cancelling_is_quiet(view: crate::view::ViewModel)
    ensures
        extends_quietly(view.effects, view.cancelling_dialog().effects),
{
}

proof fn lemma_line_keys_are_quiet(
    view: crate::view::ViewModel,
    keystroke: crate::keys::KeystrokeModel,
    check: DestinationCheck,
)
    ensures
        extends_quietly(view.effects, view.line_key(keystroke, check).effects),
{
    match crate::dialogs::edit_key_of(keystroke.key) {
        crate::dialogs::EditKey::Confirm => lemma_confirming_is_quiet(view, check),
        crate::dialogs::EditKey::Cancel => lemma_cancelling_is_quiet(view),
        crate::dialogs::EditKey::DeletePrevious => lemma_edits_are_quiet(
            view,
            view.overlay.field.without_previous(),
        ),
        crate::dialogs::EditKey::DeleteNext => lemma_edits_are_quiet(
            view,
            view.overlay.field.without_next(),
        ),
        crate::dialogs::EditKey::Left => lemma_edits_are_quiet(
            view,
            view.overlay.field.with_caret_moved(-1),
        ),
        crate::dialogs::EditKey::Right => lemma_edits_are_quiet(
            view,
            view.overlay.field.with_caret_moved(1),
        ),
        crate::dialogs::EditKey::Start => lemma_edits_are_quiet(view, view.overlay.field.with_caret(0)),
        crate::dialogs::EditKey::End => lemma_edits_are_quiet(
            view,
            view.overlay.field.with_caret(view.overlay.field.text.len()),
        ),
        crate::dialogs::EditKey::Other => {
            if let Some(text) = crate::dialogs::typed_in_line(keystroke) {
                lemma_edits_are_quiet(view, view.overlay.field.with_typed(text));
            }
        },
    }
}

proof fn lemma_dialog_keys_are_quiet(
    view: crate::view::ViewModel,
    keystroke: crate::keys::KeystrokeModel,
    check: DestinationCheck,
)
    ensures
        extends_quietly(view.effects, view.dialog_key(keystroke, check).effects),
{
    lemma_confirming_is_quiet(view, check);
    lemma_line_keys_are_quiet(view, keystroke, check);
}

proof fn lemma_rename_keys_are_quiet(
    view: crate::view::ViewModel,
    keystroke: crate::keys::KeystrokeModel,
)
    ensures
        extends_quietly(view.effects, view.rename_key(keystroke).effects),
{
}

/// Keys do not reach a terminal through what is on top of the window, nor
/// anything else there.
pub proof fn law_keys_stop_at_the_top(
    view: crate::view::ViewModel,
    keystroke: crate::keys::KeystrokeModel,
    matches: ShortcutMatches,
    check: DestinationCheck,
)
    requires
        view.has_transient_ui(),
    ensures
        extends_quietly(view.effects, view.key_down(keystroke, matches, check).effects),
        view.key_down(keystroke, matches, check).effects.last()
            == crate::command::EffectModel::StopPropagation,
{
    lemma_dialog_keys_are_quiet(view, keystroke, check);
    lemma_rename_keys_are_quiet(view, keystroke);
}

/// A character that an input method delivers is not sent by the keystroke as
/// well.
pub proof fn law_characters_are_sent_once(
    view: crate::view::ViewModel,
    terminal_id: TerminalId,
    keystroke: crate::keys::KeystrokeModel,
)
    requires
        crate::keys::types_text(keystroke),
        view.input_handler_terminal is Some,
    ensures
        view.sending_key(terminal_id, keystroke) == view,
{
}

/// Nothing lies on top of the window, and a keystroke is none of its shortcuts
/// but for those that scroll.
pub open spec fn reaches_the_terminal(
    view: crate::view::ViewModel,
    matches: ShortcutMatches,
) -> bool {
    &&& view.overlay.dialog is None
    &&& view.overlay.context_menu is None
    &&& view.overlay.rename_target is None
    &&& !matches.focus_left && !matches.focus_right && !matches.focus_up && !matches.focus_down
    &&& !matches.close_pane && !matches.paste && !matches.copy_or_interrupt && !matches.eof
}

/// Page up goes twenty rows back into the history, page down twenty rows
/// forward. A terminal that ends up above the live bottom is pinned first, and
/// what was left of a wheel movement is dropped.
pub proof fn law_page_keys_scroll_a_page(
    view: crate::view::ViewModel,
    keystroke: crate::keys::KeystrokeModel,
    matches: ShortcutMatches,
    check: DestinationCheck,
    terminal_id: TerminalId,
)
    requires
        reaches_the_terminal(view, matches),
        view.has_application,
        view.active_terminal() == Some(terminal_id),
        matches.scroll_page_up || matches.scroll_page_down,
    ensures
        ({
            let after = view.key_down(keystroke, matches, check);
            let connection_id = view.active_connection;
            let delta = if matches.scroll_page_up {
                20i64
            } else {
                -20i64
            };
            let position = if view.terminal_snapshots.contains_key(terminal_id.raw) {
                view.terminal_snapshots[terminal_id.raw].viewport_position as int
            } else {
                0
            };
            let scrolled = crate::command::EffectModel::ScrollBy {
                connection_id,
                terminal_id,
                delta,
            };
            let pinned = crate::command::EffectModel::PinViewport {
                connection_id,
                terminal_id,
                pinned: true,
            };
            &&& after.effects == if position + delta > 0 {
                view.effects.push(pinned).push(scrolled)
            } else {
                view.effects.push(scrolled)
            }
            &&& !after.scrolling.scroll_accumulators.contains_key(terminal_id.raw)
            &&& forall|other: u128| #[trigger]
                after.scrolling.scroll_accumulators.contains_key(other) <==> other
                    != terminal_id.raw && view.scrolling.scroll_accumulators.contains_key(other)
        }),
{
}

/// The four focus shortcuts move the focus from the focused pane in their own
/// direction, whatever else the keystroke is.
pub proof fn law_focus_shortcuts_move_their_way(
    view: crate::view::ViewModel,
    keystroke: crate::keys::KeystrokeModel,
    matches: ShortcutMatches,
    check: DestinationCheck,
    pane_id: crate::ids::PaneId,
    connection: crate::view::WorkspaceConnection,
)
    requires
        view.overlay.dialog is None,
        view.overlay.context_menu is None,
        view.overlay.rename_target is None,
        view.focused_pane == Some(pane_id),
        view.connection(view.active_connection) == Some(connection),
        matches.focus_left || matches.focus_right || matches.focus_up || matches.focus_down,
    ensures
        view.key_down(keystroke, matches, check) == (crate::view::ViewModel {
            effects: view.effects.push(
                crate::command::EffectModel::Dispatch {
                    transport: connection.client,
                    connection_id: view.active_connection,
                    command: crate::command::CommandModel::FocusPane {
                        pane_id,
                        towards: Some(
                            if matches.focus_left {
                                FocusDirection::Left
                            } else if matches.focus_right {
                                FocusDirection::Right
                            } else if matches.focus_up {
                                FocusDirection::Up
                            } else {
                                FocusDirection::Down
                            },
                        ),
                    },
                },
            ),
            ..view
        }),
{
}

/// The shortcut that closes a pane closes the focused one.
pub proof fn law_the_close_shortcut_closes_the_focused_pane(
    view: crate::view::ViewModel,
    keystroke: crate::keys::KeystrokeModel,
    matches: ShortcutMatches,
    check: DestinationCheck,
    pane_id: crate::ids::PaneId,
    connection: crate::view::WorkspaceConnection,
)
    requires
        view.overlay.dialog is None,
        view.overlay.context_menu is None,
        view.overlay.rename_target is None,
        view.focused_pane == Some(pane_id),
        view.connection(view.active_connection) == Some(connection),
        !matches.focus_left && !matches.focus_right && !matches.focus_up && !matches.focus_down,
        matches.close_pane,
    ensures
        view.key_down(keystroke, matches, check) == (crate::view::ViewModel {
            effects: view.effects.push(
                crate::command::EffectModel::Dispatch {
                    transport: connection.client,
                    connection_id: view.active_connection,
                    command: crate::command::CommandModel::ClosePane { pane_id },
                },
            ),
            ..view
        }),
{
}

/// Without a focused pane the shortcuts for panes do nothing.
pub proof fn law_pane_shortcuts_need_a_pane(
    view: crate::view::ViewModel,
    keystroke: crate::keys::KeystrokeModel,
    matches: ShortcutMatches,
    check: DestinationCheck,
)
    requires
        view.overlay.dialog is None,
        view.overlay.context_menu is None,
        view.overlay.rename_target is None,
        view.focused_pane is None,
        matches.focus_left || matches.focus_right || matches.focus_up || matches.focus_down
            || matches.close_pane,
    ensures
        view.key_down(keystroke, matches, check) == view,
{
}

/// Pasting asks for the clipboard for the terminal that has the focus, in
/// brackets exactly where the program asked for them and the settings allow
/// them.
pub proof fn law_the_paste_shortcut_pastes(
    view: crate::view::ViewModel,
    keystroke: crate::keys::KeystrokeModel,
    matches: ShortcutMatches,
    check: DestinationCheck,
    terminal_id: TerminalId,
    connection: crate::view::WorkspaceConnection,
)
    requires
        view.overlay.dialog is None,
        view.overlay.context_menu is None,
        view.overlay.rename_target is None,
        view.active_terminal() == Some(terminal_id),
        view.connection(view.active_connection) == Some(connection),
        !matches.focus_left && !matches.focus_right && !matches.focus_up && !matches.focus_down,
        !matches.close_pane,
        matches.paste,
    ensures
        ({
            let wanted = view.terminal_snapshots.contains_key(terminal_id.raw)
                && view.terminal_snapshots[terminal_id.raw].modes.bracketed_paste;
            view.key_down(keystroke, matches, check).effects.last()
                == crate::command::EffectModel::Paste {
                transport: connection.client,
                terminal_id,
                bracketed: wanted && view.config.bracketed_paste,
            }
        }),
{
}

/// A pasted text arrives unchanged; brackets stand around it and nowhere in it.
pub proof fn law_pasted_text_arrives(text: Seq<char>)
    ensures
        pasted(text, false) == text,
        pasted(text, true) == seq!['\u{1b}', '[', '2', '0', '0', '~'] + text + seq![
            '\u{1b}',
            '[',
            '2',
            '0',
            '1',
            '~',
        ],
{
    reveal_strlit("\u{1b}[200~");
    reveal_strlit("\u{1b}[201~");
    assert("\u{1b}[200~"@ =~= seq!['\u{1b}', '[', '2', '0', '0', '~']);
    assert("\u{1b}[201~"@ =~= seq!['\u{1b}', '[', '2', '0', '1', '~']);
}

/// Where text is selected, the copy shortcut copies it and sends nothing;
/// otherwise it interrupts the program. The end shortcut sends the end of
/// input.
pub proof fn law_copying_and_interrupting(
    view: crate::view::ViewModel,
    keystroke: crate::keys::KeystrokeModel,
    matches: ShortcutMatches,
    check: DestinationCheck,
    terminal_id: TerminalId,
    connection: crate::view::WorkspaceConnection,
)
    requires
        view.overlay.dialog is None,
        view.overlay.context_menu is None,
        view.overlay.rename_target is None,
        view.active_terminal() == Some(terminal_id),
        view.connection(view.active_connection) == Some(connection),
        !matches.focus_left && !matches.focus_right && !matches.focus_up && !matches.focus_down,
        !matches.close_pane && !matches.paste,
        matches.copy_or_interrupt || matches.eof,
    ensures
        ({
            let after = view.key_down(keystroke, matches, check);
            let copied = view.copied_text(terminal_id);
            let sent = |c: char|
                crate::command::EffectModel::Enqueue {
                    transport: connection.client,
                    command: crate::command::CommandModel::SendText {
                        terminal_id,
                        source: None,
                        text: seq![c],
                    },
                };
            &&& matches.copy_or_interrupt && copied is Some ==> after == (crate::view::ViewModel {
                effects: view.effects.push(
                    crate::command::EffectModel::WriteClipboard { text: copied->0 },
                ),
                ..view
            })
            &&& matches.copy_or_interrupt && copied is None ==> after.effects.last() == sent(
                '\u{3}',
            )
            &&& !matches.copy_or_interrupt ==> after.effects.last() == sent('\u{4}')
        }),
{
    reveal_strlit("\u{3}");
    reveal_strlit("\u{4}");
    assert("\u{3}"@ =~= seq!['\u{3}']);
    assert("\u{4}"@ =~= seq!['\u{4}']);
}

/// Any other key is sent to the terminal that has the focus, over the channel
/// of its server, as what the key sends under the modes of that terminal. A key
/// with an encoding of its own goes nowhere else afterwards.
pub proof fn law_keys_are_sent_to_the_focused_terminal(
    view: crate::view::ViewModel,
    keystroke: crate::keys::KeystrokeModel,
    matches: ShortcutMatches,
    check: DestinationCheck,
    terminal_id: TerminalId,
    connection: crate::view::WorkspaceConnection,
    text: Seq<char>,
)
    requires
        reaches_the_terminal(view, matches),
        !matches.scroll_page_up && !matches.scroll_page_down,
        view.active_terminal() == Some(terminal_id),
        view.connection(view.active_connection) == Some(connection),
        view.input_handler_terminal is None || !crate::keys::types_text(keystroke),
        view.terminal_snapshots.contains_key(terminal_id.raw),
        crate::keys::keystroke_input(
            keystroke,
            view.terminal_snapshots[terminal_id.raw].modes,
        ) == Some(text),
    ensures
        ({
            let after = view.key_down(keystroke, matches, check);
            let sent = crate::command::EffectModel::Enqueue {
                transport: connection.client,
                command: crate::command::CommandModel::SendText {
                    terminal_id,
                    source: None,
                    text,
                },
            };
            let special = crate::keys::special_key(keystroke.key) is Some;
            &&& special ==> after.effects.len() >= 2 && after.effects.last()
                == crate::command::EffectModel::StopPropagation
                && after.effects[after.effects.len() - 2] == sent
            &&& !special ==> after.effects.last() == sent
            &&& after.ime == crate::ime::ImeModel::idle()
            &&& after.selection is None
        }),
{
}

/// A keystroke closes an open menu and does nothing else.
pub proof fn law_keys_close_menus(
    view: crate::view::ViewModel,
    keystroke: crate::keys::KeystrokeModel,
    matches: ShortcutMatches,
    check: DestinationCheck,
)
    requires
        view.overlay.dialog is None,
        view.overlay.context_menu is Some,
    ensures
        view.key_down(keystroke, matches, check) == (crate::view::ViewModel {
            overlay: crate::view::OverlayModel { context_menu: None, ..view.overlay },
            effects: view.effects.push(crate::command::EffectModel::Notify).push(
                crate::command::EffectModel::StopPropagation,
            ),
            ..view
        }),
{
}

/// Where the configuration gives no other keys, the shortcuts are these.
pub proof fn law_shortcuts_have_their_keys()
    ensures
        Shortcut::FocusLeft.fallback_spec() == "cmd-h"@,
        Shortcut::FocusDown.fallback_spec() == "cmd-j"@,
        Shortcut::FocusUp.fallback_spec() == "cmd-k"@,
        Shortcut::FocusRight.fallback_spec() == "cmd-l"@,
        Shortcut::ClosePane.fallback_spec() == "cmd-shift-w"@,
        Shortcut::Paste.fallback_spec() == "cmd-v"@,
        Shortcut::CopyOrInterrupt.fallback_spec() == "cmd-c"@,
        Shortcut::Eof.fallback_spec() == "cmd-d"@,
        Shortcut::ScrollPageUp.fallback_spec() == "shift-pageup"@,
        Shortcut::ScrollPageDown.fallback_spec() == "shift-pagedown"@,
{
}

} // verus!
