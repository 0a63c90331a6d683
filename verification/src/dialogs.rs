//! Dialogs and renaming in place.

use crate::command::AppCommand;
use crate::command::Effect;
use crate::ids::ConnectionId;
use crate::ids::PaneId;
use crate::ids::TabId;
use crate::ids::WorkspaceId;
use crate::keys::is_named;
use crate::keys::Keystroke;
use crate::model::TerminalStatus;
use crate::text::chars_of;
use crate::text::text_of;
use crate::text::trim_chars;
use crate::view::DialogState;
use crate::view::RenameTarget;
use crate::view::WorkspaceView;
use vstd::prelude::*;

verus! {

/// What is known of the text of the connect dialog as an address: the address
/// in its canonical form, or why it is none.
#[derive(Debug)]
pub enum DestinationCheck {
    Valid { destination: String },
    Invalid { message: String },
}

/// What a key does to a line of text.
#[derive(Clone, Copy, PartialEq, Eq, Structural, Debug)]
pub enum EditKey {
    Confirm,
    Cancel,
    DeletePrevious,
    DeleteNext,
    Left,
    Right,
    Start,
    End,
    Other,
}

pub open spec fn edit_key_of(name: Seq<char>) -> EditKey {
    if name == "enter"@ || name == "return"@ {
        EditKey::Confirm
    } else if name == "escape"@ {
        EditKey::Cancel
    } else if name == "backspace"@ {
        EditKey::DeletePrevious
    } else if name == "delete"@ {
        EditKey::DeleteNext
    } else if name == "left"@ {
        EditKey::Left
    } else if name == "right"@ {
        EditKey::Right
    } else if name == "home"@ {
        EditKey::Start
    } else if name == "end"@ {
        EditKey::End
    } else {
        EditKey::Other
    }
}

/// What the key with a name does to a line of text.
pub fn edit_key(name: &str) -> (key: EditKey)
    ensures
        key == edit_key_of(name@),
{
    let name = chars_of(name);
    if is_named(&name, "enter") || is_named(&name, "return") {
        EditKey::Confirm
    } else if is_named(&name, "escape") {
        EditKey::Cancel
    } else if is_named(&name, "backspace") {
        EditKey::DeletePrevious
    } else if is_named(&name, "delete") {
        EditKey::DeleteNext
    } else if is_named(&name, "left") {
        EditKey::Left
    } else if is_named(&name, "right") {
        EditKey::Right
    } else if is_named(&name, "home") {
        EditKey::Start
    } else if is_named(&name, "end") {
        EditKey::End
    } else {
        EditKey::Other
    }
}

/// The text that a key types into a line, if it is no shortcut.
pub open spec fn typed_in_line(keystroke: crate::keys::KeystrokeModel) -> Option<Seq<char>> {
    if keystroke.modifiers.platform || keystroke.modifiers.control || keystroke.modifiers.alt {
        None
    } else {
        keystroke.key_char
    }
}

fn line_text(keystroke: &Keystroke) -> (text: Option<&str>)
    ensures
        match text {
            Some(text) => typed_in_line(keystroke@) == Some(text@),
            None => typed_in_line(keystroke@) is None,
        },
{
    if keystroke.modifiers.platform || keystroke.modifiers.control || keystroke.modifiers.alt {
        return None;
    }
    match &keystroke.key_char {
        Some(text) => Some(text.as_str()),
        None => None,
    }
}

/// Why a window that belongs to no application connects nowhere.
pub open spec fn unavailable() -> Seq<char> {
    "Remote connections are unavailable in this view"@
}

impl crate::view::ViewModel {
    /// With the text of a dialog set, and its caret blinking.
    pub open spec fn with_input(self, text: Seq<char>) -> Self {
        let generation = (self.overlay.dialog_input_generation + 1) as u64;
        crate::view::ViewModel {
            overlay: crate::view::OverlayModel {
                field: crate::field::FieldModel::holding(text),
                remote_connection_error: None,
                dialog_input_generation: generation,
                ..self.overlay
            },
            ..self
        }.asking(crate::command::EffectModel::BlinkCaret { generation }).asking(
            crate::command::EffectModel::FocusWindow,
        ).notified()
    }

    /// The caret that blinks is that of the open dialog.
    pub open spec fn owns_caret(self, generation: u64) -> bool {
        self.overlay.dialog_input_generation == generation && self.edits_text()
    }

    pub open spec fn blinking(self, generation: u64) -> Self {
        if self.owns_caret(generation) {
            crate::view::ViewModel {
                overlay: crate::view::OverlayModel {
                    field: crate::field::FieldModel {
                        caret_visible: !self.overlay.field.caret_visible,
                        ..self.overlay.field
                    },
                    ..self.overlay
                },
                ..self
            }.notified()
        } else {
            self
        }
    }

    /// With a workspace to be closed. One with tabs is asked about first.
    pub open spec fn requesting_close(self, workspace_id: WorkspaceId) -> Self {
        match self.workspace(workspace_id) {
            Some(workspace) => {
                let closed = crate::view::ViewModel {
                    overlay: crate::view::OverlayModel { context_menu: None, ..self.overlay },
                    ..self
                };
                if workspace.tabs.len() == 0 {
                    closed.dispatching(
                        crate::command::CommandModel::CloseWorkspace { workspace_id },
                    ).notified()
                } else {
                    crate::view::ViewModel {
                        overlay: crate::view::OverlayModel {
                            dialog: Some(DialogState::ConfirmCloseWorkspace { workspace_id }),
                            ..closed.overlay
                        },
                        ..closed
                    }.asking(crate::command::EffectModel::FocusWindow).notified()
                }
            },
            None => self,
        }
    }

    /// The text of the dialog is empty but for whitespace.
    pub open spec fn input_is_blank(self) -> bool {
        crate::text::trimmed(self.overlay.field.text).len() == 0
    }

    pub open spec fn with_connection_error(self, message: Seq<char>) -> Self {
        crate::view::ViewModel {
            overlay: crate::view::OverlayModel {
                remote_connection_error: Some(message),
                ..self.overlay
            },
            ..self
        }.notified()
    }

    /// With the connect dialog confirmed. It stays open until the connection
    /// is there.
    pub open spec fn connecting(self, check: DestinationCheck) -> Self {
        if self.input_is_blank() {
            self
        } else {
            match check {
                DestinationCheck::Invalid { message } => self.with_connection_error(message@),
                DestinationCheck::Valid { destination } => if self.overlay.remote_connection_pending {
                    self
                } else if !self.has_application {
                    self.with_connection_error(unavailable())
                } else {
                    crate::view::ViewModel {
                        overlay: crate::view::OverlayModel {
                            remote_connection_pending: true,
                            remote_connection_error: None,
                            ..self.overlay
                        },
                        ..self
                    }.notified().asking(
                        crate::command::EffectModel::ConnectRemote { destination: destination@ },
                    )
                },
            }
        }
    }

    /// With the dialog confirmed.
    pub open spec fn confirming(self, check: DestinationCheck) -> Self {
        match self.overlay.dialog {
            None => self,
            Some(DialogState::ConfirmCloseWorkspace { workspace_id }) => crate::view::ViewModel {
                overlay: crate::view::OverlayModel { dialog: None, ..self.overlay },
                ..self
            }.dispatching(
                crate::command::CommandModel::CloseWorkspace { workspace_id },
            ).notified(),
            Some(DialogState::ConnectRemote) => self.connecting(check),
            Some(DialogState::RenameWorkspace { connection_id, workspace_id }) => {
                if self.input_is_blank() {
                    self.notified()
                } else {
                    crate::view::ViewModel {
                        overlay: crate::view::OverlayModel {
                            dialog: None,
                            field: self.overlay.field.cleared(),
                            ..self.overlay
                        },
                        ..self
                    }.dispatching_on(
                        connection_id,
                        crate::command::CommandModel::RenameWorkspace {
                            workspace_id,
                            title: crate::text::trimmed(self.overlay.field.text),
                        },
                    ).notified()
                }
            },
        }
    }

    pub open spec fn cancelling_dialog(self) -> Self {
        if self.overlay.dialog is None {
            self
        } else {
            crate::view::ViewModel {
                overlay: crate::view::OverlayModel {
                    dialog: None,
                    field: self.overlay.field.cleared(),
                    remote_connection_error: None,
                    remote_connection_pending: false,
                    ..self.overlay
                },
                ..self
            }.notified()
        }
    }

    pub open spec fn opening_connect(self) -> Self {
        if self.has_transient_ui() {
            self
        } else {
            crate::view::ViewModel {
                overlay: crate::view::OverlayModel {
                    remote_connection_pending: false,
                    dialog: Some(DialogState::ConnectRemote),
                    ..self.overlay
                },
                ..self
            }.with_input(Seq::empty())
        }
    }

    /// The connect dialog waits for a connection.
    pub open spec fn awaits_connection(self) -> bool {
        self.overlay.remote_connection_pending && self.overlay.dialog == Some(DialogState::ConnectRemote)
    }

    /// With the outcome of an attempt to connect. A connection that nobody
    /// waits for any more is closed.
    pub open spec fn connected(self, result: Result<ConnectionId, String>) -> Self {
        if !self.awaits_connection() {
            match result {
                Ok(connection_id) => if self.has_application {
                    self.asking(crate::command::EffectModel::Disconnect { connection_id })
                } else {
                    self
                },
                Err(_) => self,
            }
        } else {
            match result {
                Ok(connection_id) => crate::view::ViewModel {
                    overlay: crate::view::OverlayModel {
                        remote_connection_pending: false,
                        dialog: None,
                        field: self.overlay.field.cleared(),
                        remote_connection_error: None,
                        ..self.overlay
                    },
                    ..self
                }.selecting_connection(connection_id).notified(),
                Err(message) => crate::view::ViewModel {
                    overlay: crate::view::OverlayModel {
                        remote_connection_pending: false,
                        ..self.overlay
                    },
                    ..self
                }.with_connection_error(message@),
            }
        }
    }

    /// With the line edited: an error about it no longer holds.
    pub open spec fn edited(self, field: crate::field::FieldModel) -> Self {
        crate::view::ViewModel {
            overlay: crate::view::OverlayModel {
                field,
                remote_connection_error: None,
                ..self.overlay
            },
            ..self
        }.notified()
    }

    /// With the caret moved, where it moved.
    pub open spec fn caret_moved(self, field: crate::field::FieldModel) -> Self {
        crate::view::ViewModel {
            overlay: crate::view::OverlayModel { field, ..self.overlay },
            ..self
        }.notified_if(field != self.overlay.field)
    }

    pub open spec fn deleting_previous(self) -> Self {
        if self.overlay.field.caret == 0 {
            self
        } else {
            self.edited(self.overlay.field.without_previous())
        }
    }

    pub open spec fn deleting_next(self) -> Self {
        if self.overlay.field.caret >= self.overlay.field.text.len() {
            self
        } else {
            self.edited(self.overlay.field.without_next())
        }
    }

    /// With a key pressed while a dialog with a text is open.
    pub open spec fn line_key(
        self,
        keystroke: crate::keys::KeystrokeModel,
        check: DestinationCheck,
    ) -> Self {
        match edit_key_of(keystroke.key) {
            EditKey::Confirm => self.confirming(check),
            EditKey::Cancel => self.cancelling_dialog(),
            EditKey::DeletePrevious => self.deleting_previous(),
            EditKey::DeleteNext => self.deleting_next(),
            EditKey::Left => self.caret_moved(self.overlay.field.with_caret_moved(-1)),
            EditKey::Right => self.caret_moved(self.overlay.field.with_caret_moved(1)),
            EditKey::Start => self.caret_moved(self.overlay.field.with_caret(0)),
            EditKey::End => self.caret_moved(self.overlay.field.with_caret(self.overlay.field.text.len())),
            EditKey::Other => match typed_in_line(keystroke) {
                Some(text) => self.edited(self.overlay.field.with_typed(text)),
                None => self,
            },
        }
    }

    /// With a key pressed while a dialog is open. A dialog that waits for a
    /// connection can only be left.
    pub open spec fn dialog_key(
        self,
        keystroke: crate::keys::KeystrokeModel,
        check: DestinationCheck,
    ) -> Self {
        let key = edit_key_of(keystroke.key);
        if self.overlay.dialog is None {
            self
        } else if self.awaits_connection() {
            if key == EditKey::Cancel {
                self.cancelling_dialog()
            } else {
                self
            }
        } else if self.edits_text() {
            self.line_key(keystroke, check)
        } else if key == EditKey::Confirm {
            self.confirming(check)
        } else if key == EditKey::Cancel {
            self.cancelling_dialog()
        } else {
            self
        }
    }

    /// With the dialog open that renames a workspace of a server.
    pub open spec fn renaming_workspace(
        self,
        connection_id: ConnectionId,
        workspace_id: WorkspaceId,
    ) -> Self {
        match self.workspace_in(connection_id, workspace_id) {
            Some(workspace) => if self.has_transient_ui() {
                self
            } else {
                crate::view::ViewModel {
                    overlay: crate::view::OverlayModel {
                        rename_value: Seq::empty(),
                        dialog: Some(DialogState::RenameWorkspace { connection_id, workspace_id }),
                        ..self.overlay
                    },
                    ..self
                }.with_input(workspace.title@)
            },
            None => self,
        }
    }

    pub open spec fn renaming_active_workspace(self) -> Self {
        match self.selected_workspace {
            Some(workspace_id) => self.renaming_workspace(self.active_connection, workspace_id),
            None => self,
        }
    }

    /// With something being renamed in place.
    pub open spec fn renaming(self, target: RenameTarget, text: Seq<char>) -> Self {
        crate::view::ViewModel {
            overlay: crate::view::OverlayModel {
                rename_target: Some(target),
                rename_value: text,
                ..self.overlay
            },
            ..self
        }.asking(
            crate::command::EffectModel::FocusWindow,
        ).notified()
    }

    pub open spec fn renaming_tab(self, tab_id: TabId) -> Self {
        match self.tab(tab_id) {
            Some(tab) => if self.has_transient_ui() {
                self
            } else {
                self.renaming(RenameTarget::Tab { tab_id }, tab.title@)
            },
            None => self,
        }
    }

    pub open spec fn renaming_active_tab(self) -> Self {
        match self.active_tab() {
            Some(tab_id) => self.renaming_tab(tab_id),
            None => self,
        }
    }

    pub open spec fn renaming_agent(self, connection_id: ConnectionId, pane_id: PaneId) -> Self {
        match self.agent_in(connection_id, pane_id) {
            Some(agent) => if self.has_transient_ui() || !agent.runs() {
                self
            } else {
                self.renaming(
                    RenameTarget::Agent { connection_id, pane_id },
                    agent.display_label@,
                )
            },
            None => self,
        }
    }

    /// With nothing being renamed.
    pub open spec fn rename_ended(self) -> Self {
        crate::view::ViewModel {
            overlay: crate::view::OverlayModel {
                rename_target: None,
                rename_value: Seq::empty(),
                ..self.overlay
            },
            ..self
        }
    }

    pub open spec fn cancelling_rename(self) -> Self {
        if self.overlay.rename_target is None {
            self
        } else {
            self.rename_ended().notified()
        }
    }

    /// With the new name sent. A tab keeps its name rather than having none;
    /// an agent without one gets back the name it brought.
    pub open spec fn committing_rename(self) -> Self {
        let title = crate::text::trimmed(self.overlay.rename_value);
        match self.overlay.rename_target {
            None => self,
            Some(RenameTarget::Tab { tab_id }) => if title.len() == 0 {
                self.rename_ended().notified()
            } else {
                self.rename_ended().dispatching(
                    crate::command::CommandModel::RenameTab { tab_id, title },
                ).notified()
            },
            Some(
                RenameTarget::Agent { connection_id, pane_id },
            ) => self.rename_ended().dispatching_on(
                connection_id,
                crate::command::CommandModel::RenameAgent { pane_id, label: title },
            ).notified(),
        }
    }

    /// With a key pressed while something is being renamed in place.
    pub open spec fn rename_key(self, keystroke: crate::keys::KeystrokeModel) -> Self {
        if self.overlay.rename_target is None {
            self
        } else {
            match edit_key_of(keystroke.key) {
                EditKey::Confirm => self.committing_rename(),
                EditKey::Cancel => self.cancelling_rename(),
                EditKey::DeletePrevious => crate::view::ViewModel {
                    overlay: crate::view::OverlayModel {
                        rename_value: if self.overlay.rename_value.len() > 0 {
                            self.overlay.rename_value.drop_last()
                        } else {
                            self.overlay.rename_value
                        },
                        ..self.overlay
                    },
                    ..self
                }.notified(),
                _ => match typed_in_line(keystroke) {
                    Some(text) => crate::view::ViewModel {
                        overlay: crate::view::OverlayModel {
                            rename_value: self.overlay.rename_value + text,
                            ..self.overlay
                        },
                        ..self
                    }.notified(),
                    None => self,
                },
            }
        }
    }
}

impl WorkspaceView {
    /// Sets the text of a dialog and starts its caret.
    pub fn set_dialog_input(&mut self, value: &str)
        requires
            old(self)@.overlay.dialog_input_generation < u64::MAX,
        ensures
            final(self)@ == old(self)@.with_input(value@),
            old(self)@.wf() ==> final(self)@.wf(),
    {
        self.overlay.field.set(value);
        self.overlay.remote_connection_error = None;
        let generation: u64 = self.overlay.dialog_input_generation + 1;
        self.overlay.dialog_input_generation = generation;
        self.ask(Effect::BlinkCaret { generation });
        self.ask(Effect::FocusWindow);
        self.notify();
    }

    /// Shows or hides the caret of a dialog; tells whether the dialog is still
    /// open, so that its caret goes on blinking.
    pub fn blink_caret(&mut self, generation: u64) -> (owned: bool)
        ensures
            final(self)@ == old(self)@.blinking(generation),
            owned == old(self)@.owns_caret(generation),
            old(self)@.wf() ==> final(self)@.wf(),
    {
        if self.overlay.dialog_input_generation == generation && self.dialog_is_text_input() {
            self.overlay.field.caret_visible = !self.overlay.field.caret_visible;
            self.notify();
            true
        } else {
            false
        }
    }

    /// Closes a workspace, after a question where it has tabs.
    pub fn request_close_workspace(&mut self, workspace_id: WorkspaceId)
        ensures
            final(self)@ == old(self)@.requesting_close(workspace_id),
            old(self)@.wf() ==> final(self)@.wf(),
    {
        let has_tabs: bool = match self.workspace_by_id(workspace_id) {
            Some(workspace) => workspace.tabs.len() > 0,
            None => {
                return;
            },
        };
        self.overlay.context_menu = None;
        if !has_tabs {
            self.dispatch(AppCommand::CloseWorkspace { workspace_id });
            self.notify();
        } else {
            self.overlay.dialog = Some(DialogState::ConfirmCloseWorkspace { workspace_id });
            self.ask(Effect::FocusWindow);
            self.notify();
        }
    }

    fn confirm_connect(&mut self, check: DestinationCheck)
        ensures
            final(self)@ == old(self)@.connecting(check),
            old(self)@.wf() ==> final(self)@.wf(),
    {
        if self.overlay.field.is_blank() {
            return;
        }
        match check {
            DestinationCheck::Invalid { message } => {
                self.overlay.remote_connection_error = Some(message);
                self.notify();
            },
            DestinationCheck::Valid { destination } => {
                if self.overlay.remote_connection_pending {
                    return;
                }
                if !self.has_application {
                    self.overlay.remote_connection_error = Some(
                        "Remote connections are unavailable in this view".to_owned(),
                    );
                    self.notify();
                    return;
                }
                self.overlay.remote_connection_pending = true;
                self.overlay.remote_connection_error = None;
                self.notify();
                self.ask(Effect::ConnectRemote { destination });
            },
        }
    }

    fn confirm_close(&mut self, workspace_id: WorkspaceId)
        ensures
            final(self)@ == (crate::view::ViewModel {
                overlay: crate::view::OverlayModel { dialog: None, ..old(self)@.overlay },
                ..old(self)@
            }).dispatching(
                crate::command::CommandModel::CloseWorkspace { workspace_id },
            ).notified(),
            old(self)@.wf() ==> final(self)@.wf(),
    {
        self.overlay.dialog = None;
        self.dispatch(AppCommand::CloseWorkspace { workspace_id });
        self.notify();
    }

    fn confirm_rename(&mut self, connection_id: ConnectionId, workspace_id: WorkspaceId)
        requires
            !old(self)@.input_is_blank(),
        ensures
            final(self)@ == (crate::view::ViewModel {
                overlay: crate::view::OverlayModel {
                    dialog: None,
                    field: old(self)@.overlay.field.cleared(),
                    ..old(self)@.overlay
                },
                ..old(self)@
            }).dispatching_on(
                connection_id,
                crate::command::CommandModel::RenameWorkspace {
                    workspace_id,
                    title: crate::text::trimmed(old(self)@.overlay.field.text),
                },
            ).notified(),
            old(self)@.wf() ==> final(self)@.wf(),
    {
        let title = self.overlay.field.trimmed();
        self.overlay.dialog = None;
        self.overlay.field.clear();
        self.dispatch_on(connection_id, AppCommand::RenameWorkspace { workspace_id, title });
        self.notify();
    }

    /// Confirms the dialog; `check` tells what the text is as an address.
    pub fn confirm_dialog(&mut self, check: DestinationCheck)
        ensures
            final(self)@ == old(self)@.confirming(check),
            old(self)@.wf() ==> final(self)@.wf(),
    {
        match self.overlay.dialog {
            None => {},
            Some(DialogState::ConfirmCloseWorkspace { workspace_id }) => {
                self.confirm_close(workspace_id);
            },
            Some(DialogState::ConnectRemote) => {
                self.confirm_connect(check);
            },
            Some(DialogState::RenameWorkspace { connection_id, workspace_id }) => {
                if self.overlay.field.is_blank() {
                    self.notify();
                } else {
                    self.confirm_rename(connection_id, workspace_id);
                }
            },
        }
    }

    pub fn cancel_dialog(&mut self)
        ensures
            final(self)@ == old(self)@.cancelling_dialog(),
            old(self)@.wf() ==> final(self)@.wf(),
    {
        if self.overlay.dialog.is_none() {
            return;
        }
        self.overlay.dialog = None;
        self.overlay.field.clear();
        self.overlay.remote_connection_error = None;
        self.overlay.remote_connection_pending = false;
        self.notify();
    }

    /// Opens the dialog that connects to a server.
    pub fn begin_connect_remote(&mut self)
        requires
            old(self)@.overlay.dialog_input_generation < u64::MAX,
        ensures
            final(self)@ == old(self)@.opening_connect(),
            old(self)@.wf() ==> final(self)@.wf(),
    {
        if self.has_transient_ui() {
            return;
        }
        self.overlay.remote_connection_pending = false;
        self.overlay.dialog = Some(DialogState::ConnectRemote);
        proof {
            reveal_strlit("");
            assert(""@ =~= Seq::<char>::empty());
        }
        self.set_dialog_input("");
    }

    /// Takes the outcome of an attempt to connect.
    pub fn finish_remote_connection(&mut self, result: Result<ConnectionId, String>)
        ensures
            final(self)@ == old(self)@.connected(result),
            old(self)@.wf() ==> final(self)@.wf(),
    {
        if !self.overlay.remote_connection_pending || self.overlay.dialog != Some(DialogState::ConnectRemote) {
            if let Ok(connection_id) = result {
                if self.has_application {
                    self.ask(Effect::Disconnect { connection_id });
                }
            }
            return;
        }
        self.overlay.remote_connection_pending = false;
        match result {
            Ok(connection_id) => {
                self.overlay.dialog = None;
                self.overlay.field.clear();
                self.overlay.remote_connection_error = None;
                self.select_connection_locally(connection_id);
            },
            Err(message) => {
                self.overlay.remote_connection_error = Some(message);
            },
        }
        self.notify();
    }

    fn move_dialog_caret(&mut self, delta: isize)
        requires
            old(self)@.wf(),
            delta > isize::MIN,
        ensures
            final(self)@ == old(self)@.caret_moved(
                old(self)@.overlay.field.with_caret_moved(delta as int),
            ),
            final(self)@.wf(),
    {
        if self.overlay.field.move_caret(delta) {
            self.notify();
        }
    }

    fn set_dialog_caret(&mut self, caret: usize)
        requires
            old(self)@.wf(),
        ensures
            final(self)@ == old(self)@.caret_moved(old(self)@.overlay.field.with_caret(caret as nat)),
            final(self)@.wf(),
    {
        if self.overlay.field.set_caret(caret) {
            self.notify();
        }
    }

    fn edit_dialog_input_before_caret(&mut self)
        requires
            old(self)@.wf(),
        ensures
            final(self)@ == old(self)@.deleting_previous(),
            final(self)@.wf(),
    {
        if self.overlay.field.delete_previous() {
            self.overlay.remote_connection_error = None;
            self.notify();
        }
    }

    fn edit_dialog_input_after_caret(&mut self)
        requires
            old(self)@.wf(),
        ensures
            final(self)@ == old(self)@.deleting_next(),
            final(self)@.wf(),
    {
        if self.overlay.field.delete_next() {
            self.overlay.remote_connection_error = None;
            self.notify();
        }
    }

    fn handle_line_key(&mut self, keystroke: &Keystroke, check: DestinationCheck)
        requires
            old(self)@.wf(),
        ensures
            final(self)@ == old(self)@.line_key(keystroke@, check),
            final(self)@.wf(),
    {
        match edit_key(keystroke.key.as_str()) {
            EditKey::Confirm => self.confirm_dialog(check),
            EditKey::Cancel => self.cancel_dialog(),
            EditKey::DeletePrevious => self.edit_dialog_input_before_caret(),
            EditKey::DeleteNext => self.edit_dialog_input_after_caret(),
            EditKey::Left => self.move_dialog_caret(-1),
            EditKey::Right => self.move_dialog_caret(1),
            EditKey::Start => self.set_dialog_caret(0),
            EditKey::End => {
                let end: usize = self.overlay.field.chars.len();
                self.set_dialog_caret(end);
            },
            EditKey::Other => {
                if let Some(text) = line_text(keystroke) {
                    self.overlay.field.insert(text);
                    self.overlay.remote_connection_error = None;
                    self.notify();
                }
            },
        }
    }

    /// Handles a key while a dialog is open; tells whether one is.
    pub fn handle_dialog_key(&mut self, keystroke: &Keystroke, check: DestinationCheck) -> (handled:
        bool)
        requires
            old(self)@.wf(),
        ensures
            final(self)@ == old(self)@.dialog_key(keystroke@, check),
            handled == (old(self)@.overlay.dialog is Some),
            final(self)@.wf(),
    {
        if self.overlay.dialog.is_none() {
            return false;
        }
        let key = edit_key(keystroke.key.as_str());
        if self.overlay.remote_connection_pending && self.overlay.dialog == Some(DialogState::ConnectRemote) {
            if key == EditKey::Cancel {
                self.cancel_dialog();
            }
            return true;
        }
        if self.dialog_is_text_input() {
            self.handle_line_key(keystroke, check);
            return true;
        }
        match key {
            EditKey::Confirm => self.confirm_dialog(check),
            EditKey::Cancel => self.cancel_dialog(),
            _ => {},
        }
        true
    }

    /// Opens the dialog that renames a workspace of a server.
    pub fn begin_rename_workspace(&mut self, connection_id: ConnectionId, workspace_id: WorkspaceId)
        requires
            old(self)@.overlay.dialog_input_generation < u64::MAX,
        ensures
            final(self)@ == old(self)@.renaming_workspace(connection_id, workspace_id),
            old(self)@.wf() ==> final(self)@.wf(),
    {
        if self.has_transient_ui() {
            return;
        }
        let title: String = match self.workspace_by_id_in(connection_id, workspace_id) {
            Some(workspace) => workspace.title.clone(),
            None => {
                return;
            },
        };
        self.overlay.rename_value = Vec::new();
        self.overlay.dialog = Some(DialogState::RenameWorkspace { connection_id, workspace_id });
        self.set_dialog_input(title.as_str());
    }

    pub fn begin_rename_active_workspace(&mut self)
        requires
            old(self)@.overlay.dialog_input_generation < u64::MAX,
        ensures
            final(self)@ == old(self)@.renaming_active_workspace(),
            old(self)@.wf() ==> final(self)@.wf(),
    {
        if let Some(workspace_id) = self.selected_workspace {
            self.begin_rename_workspace(self.active_connection, workspace_id);
        }
    }

    /// Renames a tab in place.
    pub fn begin_rename_tab(&mut self, tab_id: TabId)
        ensures
            final(self)@ == old(self)@.renaming_tab(tab_id),
            old(self)@.wf() ==> final(self)@.wf(),
    {
        if self.has_transient_ui() {
            return;
        }
        let title: Vec<char> = match self.tab_by_id(tab_id) {
            Some(tab) => chars_of(tab.title.as_str()),
            None => {
                return;
            },
        };
        self.overlay.rename_target = Some(RenameTarget::Tab { tab_id });
        self.overlay.rename_value = title;
        self.ask(Effect::FocusWindow);
        self.notify();
    }

    pub fn begin_rename_active_tab(&mut self)
        ensures
            final(self)@ == old(self)@.renaming_active_tab(),
            old(self)@.wf() ==> final(self)@.wf(),
    {
        if let Some(tab_id) = self.shown_tab_id() {
            self.begin_rename_tab(tab_id);
        }
    }

    /// Renames an agent of a server in place.
    pub fn begin_rename_agent(&mut self, connection_id: ConnectionId, pane_id: PaneId)
        ensures
            final(self)@ == old(self)@.renaming_agent(connection_id, pane_id),
            old(self)@.wf() ==> final(self)@.wf(),
    {
        if self.has_transient_ui() {
            return;
        }
        let label: Vec<char> = match self.agent_by_pane_id_in(connection_id, pane_id) {
            Some(agent) => {
                if agent.status != TerminalStatus::Running {
                    return;
                }
                chars_of(agent.display_label.as_str())
            },
            None => {
                return;
            },
        };
        self.overlay.rename_target = Some(RenameTarget::Agent { connection_id, pane_id });
        self.overlay.rename_value = label;
        self.ask(Effect::FocusWindow);
        self.notify();
    }

    pub fn cancel_rename(&mut self)
        ensures
            final(self)@ == old(self)@.cancelling_rename(),
            old(self)@.wf() ==> final(self)@.wf(),
    {
        if self.overlay.rename_target.is_none() {
            return;
        }
        self.end_rename();
        self.notify();
    }

    fn end_rename(&mut self)
        ensures
            final(self)@ == old(self)@.rename_ended(),
    {
        self.overlay.rename_target = None;
        self.overlay.rename_value = Vec::new();
    }

    fn commit_tab_name(&mut self, tab_id: TabId, title: String)
        ensures
            final(self)@ == old(self)@.rename_ended().dispatching(
                crate::command::CommandModel::RenameTab { tab_id, title: title@ },
            ).notified(),
    {
        self.end_rename();
        self.dispatch(AppCommand::RenameTab { tab_id, title });
        self.notify();
    }

    fn commit_agent_name(&mut self, connection_id: ConnectionId, pane_id: PaneId, label: String)
        ensures
            final(self)@ == old(self)@.rename_ended().dispatching_on(
                connection_id,
                crate::command::CommandModel::RenameAgent { pane_id, label: label@ },
            ).notified(),
    {
        self.end_rename();
        self.dispatch_on(connection_id, AppCommand::RenameAgent { pane_id, label });
        self.notify();
    }

    /// Sends the new name.
    pub fn commit_rename(&mut self)
        ensures
            final(self)@ == old(self)@.committing_rename(),
            old(self)@.wf() ==> final(self)@.wf(),
    {
        let target: RenameTarget = match self.overlay.rename_target {
            Some(target) => target,
            None => {
                return;
            },
        };
        let trimmed = trim_chars(&self.overlay.rename_value);
        match target {
            RenameTarget::Tab { tab_id } => {
                if trimmed.len() > 0 {
                    self.commit_tab_name(tab_id, text_of(trimmed.as_slice()));
                } else {
                    self.end_rename();
                    self.notify();
                }
            },
            RenameTarget::Agent { connection_id, pane_id } => {
                self.commit_agent_name(connection_id, pane_id, text_of(trimmed.as_slice()));
            },
        }
    }

    /// Handles a key while something is being renamed in place; tells whether
    /// something is.
    pub fn handle_rename_key(&mut self, keystroke: &Keystroke) -> (handled: bool)
        ensures
            final(self)@ == old(self)@.rename_key(keystroke@),
            handled == (old(self)@.overlay.rename_target is Some),
            old(self)@.wf() ==> final(self)@.wf(),
    {
        if self.overlay.rename_target.is_none() {
            return false;
        }
        match edit_key(keystroke.key.as_str()) {
            EditKey::Confirm => self.commit_rename(),
            EditKey::Cancel => self.cancel_rename(),
            EditKey::DeletePrevious => {
                self.overlay.rename_value.pop();
                self.notify();
            },
            _ => {
                if let Some(text) = line_text(keystroke) {
                    let mut typed = chars_of(text);
                    self.overlay.rename_value.append(&mut typed);
                    self.notify();
                }
            },
        }
        true
    }
}

/// Confirming a dialog whose text is empty but for whitespace sends nothing
/// and leaves the dialog open.
pub proof fn law_blank_input_confirms_nothing(
    view: crate::view::ViewModel,
    check: DestinationCheck,
)
    requires
        view.edits_text(),
        !view.input_is_valid(),
    ensures
        view.confirming(check).overlay.dialog == view.overlay.dialog,
        view.confirming(check).overlay.field == view.overlay.field,
        view.confirming(check) == view || view.confirming(check) == view.notified(),
{
}

/// A dialog that renames a workspace sends the new name to the server that the
/// workspace is of, whichever connection is shown by then.
pub proof fn law_renames_reach_their_server(
    view: crate::view::ViewModel,
    connection_id: ConnectionId,
    workspace_id: WorkspaceId,
    check: DestinationCheck,
)
    requires
        view.overlay.dialog == Some(DialogState::RenameWorkspace { connection_id, workspace_id }),
        view.input_is_valid(),
        view.connection(connection_id) is Some,
    ensures
        view.confirming(check).effects == view.effects.push(
            crate::command::EffectModel::Dispatch {
                transport: view.connection(connection_id)->0.client,
                connection_id,
                command: crate::command::CommandModel::RenameWorkspace {
                    workspace_id,
                    title: crate::text::trimmed(view.overlay.field.text),
                },
            },
        ).push(crate::command::EffectModel::Notify),
        view.confirming(check).overlay.dialog is None,
{
}

/// Only one attempt to connect is under way at a time.
pub proof fn law_connecting_once(
    view: crate::view::ViewModel,
    first: DestinationCheck,
    second: DestinationCheck,
)
    requires
        view.overlay.dialog == Some(DialogState::ConnectRemote),
        first is Valid,
        second is Valid,
    ensures
        view.confirming(first).overlay.remote_connection_pending ==> view.confirming(first).confirming(
            second,
        ) == view.confirming(first),
{
}

/// A caret that was started for one dialog does not blink in a later one.
pub proof fn law_carets_do_not_outlive_their_dialog(
    view: crate::view::ViewModel,
    generation: u64,
    text: Seq<char>,
)
    requires
        generation <= view.overlay.dialog_input_generation < u64::MAX,
    ensures
        view.with_input(text).blinking(generation) == view.with_input(text),
{
}

proof fn lemma_edit_key_names()
    ensures
        edit_key_of("enter"@) == EditKey::Confirm,
        edit_key_of("return"@) == EditKey::Confirm,
        edit_key_of("escape"@) == EditKey::Cancel,
        edit_key_of("backspace"@) == EditKey::DeletePrevious,
        edit_key_of("delete"@) == EditKey::DeleteNext,
        edit_key_of("left"@) == EditKey::Left,
        edit_key_of("right"@) == EditKey::Right,
        edit_key_of("home"@) == EditKey::Start,
        edit_key_of("end"@) == EditKey::End,
{
    reveal_strlit("enter");
    reveal_strlit("return");
    reveal_strlit("escape");
    reveal_strlit("backspace");
    reveal_strlit("delete");
    reveal_strlit("left");
    reveal_strlit("right");
    reveal_strlit("home");
    reveal_strlit("end");
    assert("enter"@.len() == 5);
    assert("return"@.len() == 6 && "return"@[0] == 'r');
    assert("escape"@.len() == 6 && "escape"@[0] == 'e');
    assert("delete"@.len() == 6 && "delete"@[0] == 'd');
    assert("backspace"@.len() == 9);
    assert("left"@.len() == 4 && "left"@[0] == 'l');
    assert("home"@.len() == 4 && "home"@[0] == 'h');
    assert("right"@.len() == 5 && "right"@[0] == 'r' && "enter"@[0] == 'e');
    assert("end"@.len() == 3);
}

/// The keys of a line: they confirm or leave the dialog, delete on their side
/// of the caret, move it by one character or to an end, or type their text.
pub proof fn law_keys_edit_the_line(
    view: crate::view::ViewModel,
    keystroke: crate::keys::KeystrokeModel,
    check: DestinationCheck,
)
    requires
        view.wf(),
        view.edits_text(),
        !view.awaits_connection(),
    ensures
        ({
            let after = view.dialog_key(keystroke, check);
            let field = view.overlay.field;
            &&& keystroke.key == "enter"@ ==> after == view.confirming(check)
            &&& keystroke.key == "escape"@ ==> after == view.cancelling_dialog()
            &&& keystroke.key == "backspace"@ && field.caret > 0 ==> after.overlay.field.text
                == field.text.remove(field.caret - 1) && after.overlay.field.caret == field.caret
                - 1
            &&& keystroke.key == "delete"@ && field.caret < field.text.len()
                ==> after.overlay.field.text == field.text.remove(field.caret as int)
                && after.overlay.field.caret == field.caret
            &&& keystroke.key == "left"@ && field.caret > 0 ==> after.overlay.field.caret
                == field.caret - 1
            &&& keystroke.key == "right"@ && field.caret < field.text.len()
                ==> after.overlay.field.caret == field.caret + 1
            &&& keystroke.key == "home"@ ==> after.overlay.field.caret == 0
            &&& keystroke.key == "end"@ ==> after.overlay.field.caret == field.text.len()
            &&& keystroke.key == "left"@ || keystroke.key == "right"@ || keystroke.key == "home"@
                || keystroke.key == "end"@ ==> after.overlay.field.text == field.text
        }),
{
    lemma_edit_key_names();
    let field = view.overlay.field;
    if field.caret > 0 {
        assert(field.without_previous().text =~= field.text.remove(field.caret - 1));
    }
    if field.caret < field.text.len() {
        assert(field.without_next().text =~= field.text.remove(field.caret as int));
    }
}

/// A key that stands for no editing types its text, unless a modifier other
/// than shift is held.
pub proof fn law_keys_type_their_text(
    view: crate::view::ViewModel,
    keystroke: crate::keys::KeystrokeModel,
    check: DestinationCheck,
    text: Seq<char>,
)
    requires
        view.edits_text(),
        !view.awaits_connection(),
        keystroke.key_char == Some(text),
        edit_key_of(keystroke.key) == EditKey::Other,
    ensures
        ({
            let after = view.dialog_key(keystroke, check);
            let held = keystroke.modifiers.platform || keystroke.modifiers.control
                || keystroke.modifiers.alt;
            let field = view.overlay.field;
            &&& !held ==> after.overlay.field.text == field.text.take(field.caret as int) + text
                + field.text.skip(field.caret as int)
            &&& !held ==> after.overlay.remote_connection_error is None
            &&& held ==> after == view
        }),
{
}

/// Confirming the question closes the workspace; confirming a new name renames
/// it to the text without the space around it; confirming a destination
/// connects to what was checked. Either dialog about a workspace is closed.
pub proof fn law_confirming_does_what_the_dialog_asks(
    view: crate::view::ViewModel,
    connection: crate::view::WorkspaceConnection,
    active: crate::view::WorkspaceConnection,
    workspace_id: WorkspaceId,
    destination: String,
)
    requires
        view.connection(view.active_connection) == Some(active),
        view.connection(connection.id) == Some(connection),
    ensures
        ({
            let check = DestinationCheck::Valid { destination };
            let after = view.confirming(check);
            let title = crate::text::trimmed(view.overlay.field.text);
            &&& view.overlay.dialog == Some(DialogState::ConfirmCloseWorkspace { workspace_id })
                ==> after.overlay.dialog is None && after.effects == view.effects.push(
                crate::command::EffectModel::Dispatch {
                    transport: active.client,
                    connection_id: view.active_connection,
                    command: crate::command::CommandModel::CloseWorkspace { workspace_id },
                },
            ).push(crate::command::EffectModel::Notify)
            &&& view.overlay.dialog == Some(
                DialogState::RenameWorkspace { connection_id: connection.id, workspace_id },
            ) && title.len() > 0 ==> after.overlay.dialog is None && after.effects
                == view.effects.push(
                crate::command::EffectModel::Dispatch {
                    transport: connection.client,
                    connection_id: connection.id,
                    command: crate::command::CommandModel::RenameWorkspace { workspace_id, title },
                },
            ).push(crate::command::EffectModel::Notify)
            &&& view.overlay.dialog == Some(DialogState::ConnectRemote) && title.len() > 0
                && view.has_application && !view.overlay.remote_connection_pending
                ==> after.overlay.remote_connection_pending
                && after.overlay.remote_connection_error is None && after.overlay.dialog
                == view.overlay.dialog && after.effects == view.effects.push(
                crate::command::EffectModel::Notify,
            ).push(crate::command::EffectModel::ConnectRemote { destination: destination@ })
        }),
{
}

/// A destination that was refused is answered with the reason, in the dialog.
pub proof fn law_refused_destinations_are_answered(
    view: crate::view::ViewModel,
    message: String,
)
    requires
        view.overlay.dialog == Some(DialogState::ConnectRemote),
        crate::text::trimmed(view.overlay.field.text).len() > 0,
    ensures
        ({
            let after = view.confirming(DestinationCheck::Invalid { message });
            &&& after.overlay.remote_connection_error == Some(message@)
            &&& after.overlay.dialog == view.overlay.dialog
            &&& after.overlay.remote_connection_pending == view.overlay.remote_connection_pending
            &&& after.effects == view.effects.push(crate::command::EffectModel::Notify)
        }),
{
}

/// A connection that was waited for is turned to and closes the dialog; a
/// failure is answered in it. One that nobody waits for is given up.
pub proof fn law_connections_that_come_are_taken(
    view: crate::view::ViewModel,
    connection: crate::view::WorkspaceConnection,
    message: String,
)
    requires
        view.connection(connection.id) == Some(connection),
        view.active_connection != connection.id,
    ensures
        view.overlay.dialog == Some(DialogState::ConnectRemote)
            && view.overlay.remote_connection_pending ==> {
            let good = view.connected(Ok(connection.id));
            let bad = view.connected(Err(message));
            &&& good.overlay.dialog is None
            &&& !good.overlay.remote_connection_pending
            &&& good.active_connection == connection.id
            &&& bad.overlay.dialog == view.overlay.dialog
            &&& !bad.overlay.remote_connection_pending
            &&& bad.overlay.remote_connection_error == Some(message@)
            &&& bad.active_connection == view.active_connection
        },
        view.overlay.dialog is None && view.has_application ==> {
            let late = view.connected(Ok(connection.id));
            &&& late.active_connection == view.active_connection
            &&& late.effects == view.effects.push(
                crate::command::EffectModel::Disconnect { connection_id: connection.id },
            )
            &&& view.connected(Err(message)) == view
        },
{
}

/// Leaving a dialog closes it and drops its line and what was answered in it.
pub proof fn law_left_dialogs_are_gone(view: crate::view::ViewModel)
    requires
        view.overlay.dialog is Some,
    ensures
        ({
            let after = view.cancelling_dialog();
            &&& after.overlay.dialog is None
            &&& after.overlay.field.text.len() == 0
            &&& after.overlay.remote_connection_error is None
            &&& !after.overlay.remote_connection_pending
            &&& after.effects == view.effects.push(crate::command::EffectModel::Notify)
        }),
{
}

/// A workspace with tabs is closed after a question, one without at once.
pub proof fn law_workspaces_with_tabs_are_asked_about(
    view: crate::view::ViewModel,
    connection: crate::view::WorkspaceConnection,
    workspace: crate::model::WorkspaceDump,
)
    requires
        view.connection(view.active_connection) == Some(connection),
        view.workspace(workspace.id) == Some(workspace),
    ensures
        ({
            let after = view.requesting_close(workspace.id);
            &&& after.overlay.context_menu is None
            &&& workspace.tabs.len() > 0 ==> after.overlay.dialog == Some(
                DialogState::ConfirmCloseWorkspace { workspace_id: workspace.id },
            ) && after.effects == view.effects.push(
                crate::command::EffectModel::FocusWindow,
            ).push(crate::command::EffectModel::Notify)
            &&& workspace.tabs.len() == 0 ==> after.overlay.dialog == view.overlay.dialog
                && after.effects == view.effects.push(
                crate::command::EffectModel::Dispatch {
                    transport: connection.client,
                    connection_id: view.active_connection,
                    command: crate::command::CommandModel::CloseWorkspace {
                        workspace_id: workspace.id,
                    },
                },
            ).push(crate::command::EffectModel::Notify)
        }),
{
}

/// A dialog or a renaming opens with the name that there is, and the caret
/// behind it; the dialog to connect opens empty. Nothing opens over another.
pub proof fn law_renamings_open_with_the_name(
    view: crate::view::ViewModel,
    connection_id: ConnectionId,
    workspace: crate::model::WorkspaceDump,
    tab: crate::model::TabDump,
    agent: crate::model::AgentDump,
)
    requires
        view.workspace_in(connection_id, workspace.id) == Some(workspace),
        view.tab(tab.id) == Some(tab),
        view.agent_in(connection_id, agent.pane_id) == Some(agent),
    ensures
        !view.has_transient_ui() ==> {
            let dialog = view.renaming_workspace(connection_id, workspace.id);
            let line = view.renaming_tab(tab.id);
            let label = view.renaming_agent(connection_id, agent.pane_id);
            &&& dialog.overlay.dialog == Some(
                DialogState::RenameWorkspace { connection_id, workspace_id: workspace.id },
            )
            &&& dialog.overlay.field.text == workspace.title@
            &&& dialog.overlay.field.caret == workspace.title@.len()
            &&& line.overlay.rename_target == Some(RenameTarget::Tab { tab_id: tab.id })
            &&& line.overlay.rename_value == tab.title@
            &&& agent.status == crate::model::TerminalStatus::Running
                ==> label.overlay.rename_target == Some(
                RenameTarget::Agent { connection_id, pane_id: agent.pane_id },
            ) && label.overlay.rename_value == agent.display_label@
            &&& agent.status != crate::model::TerminalStatus::Running ==> label == view
            &&& view.opening_connect().overlay.dialog == Some(DialogState::ConnectRemote)
            &&& view.opening_connect().overlay.field.text.len() == 0
        },
        view.has_transient_ui() ==> view.renaming_workspace(connection_id, workspace.id) == view
            && view.renaming_tab(tab.id) == view && view.renaming_agent(
            connection_id,
            agent.pane_id,
        ) == view && view.opening_connect() == view,
{
}

/// The keys of a renaming: they commit or leave it, delete its last character,
/// or add their text.
pub proof fn law_keys_edit_the_renaming(
    view: crate::view::ViewModel,
    keystroke: crate::keys::KeystrokeModel,
    text: Seq<char>,
)
    requires
        view.overlay.rename_target is Some,
    ensures
        ({
            let after = view.rename_key(keystroke);
            let value = view.overlay.rename_value;
            let held = keystroke.modifiers.platform || keystroke.modifiers.control
                || keystroke.modifiers.alt;
            &&& keystroke.key == "enter"@ ==> after == view.committing_rename()
            &&& keystroke.key == "escape"@ ==> after.overlay.rename_target is None
                && after.overlay.rename_value.len() == 0 && after.effects == view.effects.push(
                crate::command::EffectModel::Notify,
            )
            &&& keystroke.key == "backspace"@ && value.len() > 0 ==> after.overlay.rename_value
                == value.take(value.len() - 1)
            &&& edit_key_of(keystroke.key) == EditKey::Other && keystroke.key_char == Some(text)
                && !held ==> after.overlay.rename_value == value + text
            &&& edit_key_of(keystroke.key) == EditKey::Other && held ==> after == view
        }),
{
    lemma_edit_key_names();
    let value = view.overlay.rename_value;
    if value.len() > 0 {
        assert(value.drop_last() =~= value.take(value.len() - 1));
    }
}

/// A committed renaming renames its target to the text without the space around
/// it. A tab keeps its name where nothing is left; an agent loses its label.
pub proof fn law_committed_renamings_rename(
    view: crate::view::ViewModel,
    connection: crate::view::WorkspaceConnection,
    active: crate::view::WorkspaceConnection,
    tab_id: TabId,
    pane_id: PaneId,
)
    requires
        view.connection(view.active_connection) == Some(active),
        view.connection(connection.id) == Some(connection),
    ensures
        ({
            let after = view.committing_rename();
            let title = crate::text::trimmed(view.overlay.rename_value);
            &&& view.overlay.rename_target is Some ==> after.overlay.rename_target is None
                && after.overlay.rename_value.len() == 0
            &&& view.overlay.rename_target == Some(RenameTarget::Tab { tab_id }) && title.len() > 0
                ==> after.effects == view.effects.push(
                crate::command::EffectModel::Dispatch {
                    transport: active.client,
                    connection_id: view.active_connection,
                    command: crate::command::CommandModel::RenameTab { tab_id, title },
                },
            ).push(crate::command::EffectModel::Notify)
            &&& view.overlay.rename_target == Some(RenameTarget::Tab { tab_id }) && title.len() == 0
                ==> after.effects == view.effects.push(crate::command::EffectModel::Notify)
            &&& view.overlay.rename_target == Some(
                RenameTarget::Agent { connection_id: connection.id, pane_id },
            ) ==> after.effects == view.effects.push(
                crate::command::EffectModel::Dispatch {
                    transport: connection.client,
                    connection_id: connection.id,
                    command: crate::command::CommandModel::RenameAgent { pane_id, label: title },
                },
            ).push(crate::command::EffectModel::Notify)
        }),
{
}

/// A caret blinks for the dialog that it was made for.
pub proof fn law_carets_blink(view: crate::view::ViewModel, generation: u64)
    ensures
        view.edits_text() && view.overlay.dialog_input_generation == generation ==> view.blinking(
            generation,
        ).overlay.field.caret_visible == !view.overlay.field.caret_visible && view.blinking(
            generation,
        ).effects == view.effects.push(crate::command::EffectModel::Notify),
        !view.edits_text() || view.overlay.dialog_input_generation != generation ==> view.blinking(
            generation,
        ) == view,
{
}

/// A window without an application cannot connect, and says so; while it waits
/// for a connection it asks for no other.
pub proof fn law_connecting_needs_an_application(
    view: crate::view::ViewModel,
    destination: String,
)
    requires
        view.overlay.dialog == Some(DialogState::ConnectRemote),
        crate::text::trimmed(view.overlay.field.text).len() > 0,
    ensures
        ({
            let after = view.confirming(DestinationCheck::Valid { destination });
            &&& view.overlay.remote_connection_pending ==> after == view
            &&& !view.overlay.remote_connection_pending && !view.has_application
                ==> after.overlay.remote_connection_error == Some(
                "Remote connections are unavailable in this view"@,
            ) && after.overlay.dialog == view.overlay.dialog
                && !after.overlay.remote_connection_pending && after.effects == view.effects.push(
                crate::command::EffectModel::Notify,
            )
        }),
{
}

/// While a connection is waited for, only leaving the dialog does anything; a
/// question is answered by confirming or leaving it.
pub proof fn law_waiting_dialogs_can_be_left(
    view: crate::view::ViewModel,
    keystroke: crate::keys::KeystrokeModel,
    check: DestinationCheck,
)
    ensures
        ({
            let after = view.dialog_key(keystroke, check);
            let waits = view.overlay.dialog == Some(DialogState::ConnectRemote)
                && view.overlay.remote_connection_pending;
            let asks = view.overlay.dialog is Some
                && view.overlay.dialog->0 is ConfirmCloseWorkspace;
            &&& waits && keystroke.key == "escape"@ ==> after == view.cancelling_dialog()
            &&& waits && keystroke.key != "escape"@ ==> after == view
            &&& asks && keystroke.key == "enter"@ ==> after == view.confirming(check)
            &&& asks && keystroke.key == "escape"@ ==> after == view.cancelling_dialog()
            &&& asks && keystroke.key != "enter"@ && keystroke.key != "return"@ && keystroke.key
                != "escape"@ ==> after == view
            &&& view.overlay.dialog is None ==> after == view
        }),
{
    lemma_edit_key_names();
}

/// At the ends of the line there is nothing to delete.
pub proof fn law_nothing_is_deleted_at_the_ends(
    view: crate::view::ViewModel,
    keystroke: crate::keys::KeystrokeModel,
    check: DestinationCheck,
)
    requires
        view.edits_text(),
        !view.awaits_connection(),
    ensures
        keystroke.key == "backspace"@ && view.overlay.field.caret == 0 ==> view.dialog_key(
            keystroke,
            check,
        ) == view,
        keystroke.key == "delete"@ && view.overlay.field.caret >= view.overlay.field.text.len()
            ==> view.dialog_key(keystroke, check) == view,
{
    lemma_edit_key_names();
}

} // verus!
