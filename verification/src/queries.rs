//! Looking things up in the state of a window.

use crate::ids::ConnectionId;
use crate::ids::PaneId;
use crate::ids::TabId;
use crate::ids::TerminalId;
use crate::ids::WorkspaceId;
use crate::model::active_tab;
use crate::model::agent_by_pane_id;
use crate::model::pi_agent_running_for_pane;
use crate::model::pi_agent_running_for_terminal;
use crate::model::tab_by_id;
use crate::model::terminal_id_for_pane;
use crate::model::terminal_id_in_snapshot;
use crate::model::terminal_id_in_workspace;
use crate::model::workspace_active_tab_contains_pane;
use crate::model::workspace_dump_for_snapshot;
use crate::model::workspace_exists_in_snapshot;
use crate::model::AgentDump;
use crate::model::ModelSnapshot;
use crate::model::TabDump;
use crate::model::TerminalStatus;
use crate::model::WorkspaceDump;
use crate::terminal::TerminalModes;
use crate::terminal::TerminalSnapshot;
use crate::view::ContextMenuTarget;
use crate::view::DialogState;
use crate::view::RenameTarget;
use crate::view::WorkspaceConnectionKind;
use crate::view::WorkspaceView;
use vstd::prelude::*;

verus! {

/// An agent runs in a pane.
pub open spec fn agent_runs_in(snapshot: ModelSnapshot, pane_id: PaneId) -> bool {
    exists|i: int|
        0 <= i < snapshot.agents.len() && (#[trigger] snapshot.agents@[i]).pane_id == pane_id
            && snapshot.agents@[i].runs()
}

/// Whether an agent runs in a pane.
pub fn agent_running_in_pane(snapshot: &ModelSnapshot, pane_id: PaneId) -> (running: bool)
    ensures
        running == agent_runs_in(*snapshot, pane_id),
{
    let mut i: usize = 0;
    while i < snapshot.agents.len()
        invariant
            i <= snapshot.agents.len(),
            forall|j: int|
                0 <= j < i ==> !((#[trigger] snapshot.agents@[j]).pane_id == pane_id
                    && snapshot.agents@[j].runs()),
        decreases snapshot.agents.len() - i,
    {
        let agent = &snapshot.agents[i];
        if agent.pane_id == pane_id && agent.status == TerminalStatus::Running {
            assert(snapshot.agents@[i as int].runs());
            return true;
        }
        i += 1;
    }
    false
}

impl crate::view::ViewModel {
    /// What a menu belongs to is still there.
    pub open spec fn menu_target_exists(self, target: ContextMenuTarget) -> bool {
        match target {
            ContextMenuTarget::Connection { connection_id } => match self.connection(
                connection_id,
            ) {
                Some(connection) => connection.kind == WorkspaceConnectionKind::Remote,
                None => false,
            },
            ContextMenuTarget::Workspace { connection_id, workspace_id } => self.workspace_in(
                connection_id,
                workspace_id,
            ) is Some,
            ContextMenuTarget::Tab { tab_id } => self.tab(tab_id) is Some,
            ContextMenuTarget::Agent { connection_id, pane_id } => match self.connection(
                connection_id,
            ) {
                Some(connection) => agent_runs_in(*connection.snapshot, pane_id),
                None => false,
            },
        }
    }

    /// What is being renamed is still there.
    pub open spec fn rename_target_exists(self, target: RenameTarget) -> bool {
        match target {
            RenameTarget::Tab { tab_id } => self.tab(tab_id) is Some,
            RenameTarget::Agent { connection_id, pane_id } => match self.agent_in(
                connection_id,
                pane_id,
            ) {
                Some(agent) => agent.runs(),
                None => false,
            },
        }
    }

    /// What a dialog is about is still there.
    pub open spec fn dialog_target_exists(self, dialog: DialogState) -> bool {
        match dialog {
            DialogState::ConfirmCloseWorkspace { workspace_id } => self.workspace(
                workspace_id,
            ) is Some,
            DialogState::ConnectRemote => true,
            DialogState::RenameWorkspace { connection_id, workspace_id } => self.workspace_in(
                connection_id,
                workspace_id,
            ) is Some,
        }
    }

    /// A dialog with a text is open.
    pub open spec fn edits_text(self) -> bool {
        match self.overlay.dialog {
            Some(DialogState::ConnectRemote) => true,
            Some(DialogState::RenameWorkspace { .. }) => true,
            _ => false,
        }
    }

    /// The dialog can be confirmed.
    pub open spec fn input_is_valid(self) -> bool {
        self.edits_text() && crate::text::trimmed(self.overlay.field.text).len() > 0
    }

    /// The modes of the terminal that has the focus.
    pub open spec fn active_modes(self) -> TerminalModes {
        match self.active_terminal() {
            Some(terminal_id) => match self.terminal_snapshot(terminal_id) {
                Some(snapshot) => snapshot.modes,
                None => TerminalModes::none_spec(),
            },
            None => TerminalModes::none_spec(),
        }
    }
}

impl WorkspaceView {
    pub fn workspace_by_id(&self, workspace_id: WorkspaceId) -> (workspace: Option<&WorkspaceDump>)
        ensures
            crate::lookup::refers(workspace, self@.workspace(workspace_id)),
            workspace is Some ==> workspace->0.id == workspace_id,
    {
        workspace_dump_for_snapshot(&self.snapshot, workspace_id)
    }

    /// The workspace that this window shows, whichever the server has active.
    pub fn selected_workspace_dump(&self) -> (workspace: Option<&WorkspaceDump>)
        ensures
            crate::lookup::refers(workspace, self@.selected()),
            workspace is Some ==> Some(workspace->0.id) == self@.selected_workspace,
    {
        match self.selected_workspace {
            Some(workspace_id) => self.workspace_by_id(workspace_id),
            None => None,
        }
    }

    /// The workspace of one server; servers number their workspaces on their
    /// own.
    pub fn workspace_by_id_in(&self, connection_id: ConnectionId, workspace_id: WorkspaceId) -> (workspace:
        Option<&WorkspaceDump>)
        ensures
            crate::lookup::refers(workspace, self@.workspace_in(connection_id, workspace_id)),
    {
        match self.connection_by_id(connection_id) {
            Some(connection) => workspace_dump_for_snapshot(&connection.snapshot, workspace_id),
            None => None,
        }
    }

    pub fn agent_by_pane_id_in(&self, connection_id: ConnectionId, pane_id: PaneId) -> (agent:
        Option<&AgentDump>)
        ensures
            crate::lookup::refers(agent, self@.agent_in(connection_id, pane_id)),
    {
        match self.connection_by_id(connection_id) {
            Some(connection) => agent_by_pane_id(&connection.snapshot, pane_id),
            None => None,
        }
    }

    /// Whether the active tab of a workspace shows a pane.
    pub fn workspace_contains_pane(&self, workspace_id: WorkspaceId, pane_id: PaneId) -> (contains:
        bool)
        ensures
            contains == match self@.workspace(workspace_id) {
                Some(workspace) => workspace.active_tab_shows(pane_id),
                None => false,
            },
    {
        match self.workspace_by_id(workspace_id) {
            Some(workspace) => workspace_active_tab_contains_pane(workspace, pane_id),
            None => false,
        }
    }

    /// A tab of the workspace that the window shows.
    pub fn tab_by_id(&self, tab_id: TabId) -> (tab: Option<&TabDump>)
        ensures
            crate::lookup::refers(tab, self@.tab(tab_id)),
    {
        match self.selected_workspace_dump() {
            Some(workspace) => tab_by_id(workspace, tab_id),
            None => None,
        }
    }

    /// The tab that the window shows.
    pub fn shown_tab_id(&self) -> (tab_id: Option<TabId>)
        ensures
            tab_id == self@.active_tab(),
    {
        match self.selected_workspace_dump() {
            Some(workspace) => workspace.active_tab,
            None => None,
        }
    }

    /// A tab, if it is the one that the window shows.
    pub fn active_tab_by_id(&self, tab_id: TabId) -> (tab: Option<&TabDump>)
        ensures
            crate::lookup::refers(tab, self@.shown_tab(tab_id)),
    {
        match self.selected_workspace_dump() {
            Some(workspace) => {
                if workspace.active_tab == Some(tab_id) {
                    tab_by_id(workspace, tab_id)
                } else {
                    None
                }
            },
            None => None,
        }
    }

    pub fn context_menu_target_exists(&self, target: ContextMenuTarget) -> (there: bool)
        ensures
            there == self@.menu_target_exists(target),
    {
        match target {
            ContextMenuTarget::Connection { connection_id } => match self.connection_by_id(
                connection_id,
            ) {
                Some(connection) => connection.kind == WorkspaceConnectionKind::Remote,
                None => false,
            },
            ContextMenuTarget::Workspace { connection_id, workspace_id } => {
                self.workspace_by_id_in(connection_id, workspace_id).is_some()
            },
            ContextMenuTarget::Tab { tab_id } => self.tab_by_id(tab_id).is_some(),
            ContextMenuTarget::Agent { connection_id, pane_id } => match self.connection_by_id(
                connection_id,
            ) {
                Some(connection) => agent_running_in_pane(&connection.snapshot, pane_id),
                None => false,
            },
        }
    }

    pub fn rename_target_exists(&self, target: RenameTarget) -> (there: bool)
        ensures
            there == self@.rename_target_exists(target),
    {
        match target {
            RenameTarget::Tab { tab_id } => self.tab_by_id(tab_id).is_some(),
            RenameTarget::Agent { connection_id, pane_id } => match self.agent_by_pane_id_in(
                connection_id,
                pane_id,
            ) {
                Some(agent) => agent.status == TerminalStatus::Running,
                None => false,
            },
        }
    }

    pub fn dialog_target_exists(&self, dialog: DialogState) -> (there: bool)
        ensures
            there == self@.dialog_target_exists(dialog),
    {
        match dialog {
            DialogState::ConfirmCloseWorkspace { workspace_id } => self.workspace_by_id(
                workspace_id,
            ).is_some(),
            DialogState::ConnectRemote => true,
            DialogState::RenameWorkspace { connection_id, workspace_id } => {
                self.workspace_by_id_in(connection_id, workspace_id).is_some()
            },
        }
    }

    /// Whether something on top of the window has the input.
    pub fn has_transient_ui(&self) -> (transient: bool)
        ensures
            transient == self@.has_transient_ui(),
    {
        self.overlay.rename_target.is_some() || self.overlay.context_menu.is_some() || self.overlay.dialog.is_some()
    }

    /// Whether a dialog with a text is open.
    pub fn dialog_is_text_input(&self) -> (edits: bool)
        ensures
            edits == self@.edits_text(),
    {
        match self.overlay.dialog {
            Some(DialogState::ConnectRemote) => true,
            Some(DialogState::RenameWorkspace { .. }) => true,
            _ => false,
        }
    }

    /// Whether the dialog can be confirmed: only while its text holds more
    /// than whitespace.
    pub fn dialog_input_is_valid(&self) -> (valid: bool)
        ensures
            valid == self@.input_is_valid(),
    {
        self.dialog_is_text_input() && !self.overlay.field.is_blank()
    }

    /// The terminal in the focused pane of the tab that is shown.
    pub fn active_terminal_id(&self) -> (terminal_id: Option<TerminalId>)
        ensures
            terminal_id == self@.active_terminal(),
    {
        match (self.focused_pane, self.selected_workspace_dump()) {
            (Some(pane_id), Some(workspace)) => match active_tab(workspace) {
                Some(tab) => terminal_id_for_pane(&tab.tree, pane_id),
                None => None,
            },
            _ => None,
        }
    }

    pub fn terminal_snapshot_for(&self, terminal_id: TerminalId) -> (snapshot: Option<
        &TerminalSnapshot,
    >)
        ensures
            crate::lookup::refers(snapshot, self@.terminal_snapshot(terminal_id)),
            self@.wf() && snapshot is Some ==> snapshot->0.wf() && crate::scroll::is_paintable(
                *snapshot->0,
            ),
    {
        reveal(crate::view::grids_are_sound);
        match self.terminal_snapshots.get(&terminal_id.raw) {
            Some(snapshot) => Some(&**snapshot),
            None => None,
        }
    }

    /// The modes of the terminal that has the focus; none where its grid is
    /// not at hand.
    pub fn active_terminal_modes(&self) -> (modes: TerminalModes)
        ensures
            modes == self@.active_modes(),
    {
        match self.active_terminal_id() {
            Some(terminal_id) => match self.terminal_snapshot_for(terminal_id) {
                Some(snapshot) => snapshot.modes,
                None => TerminalModes::none(),
            },
            None => TerminalModes::none(),
        }
    }

    /// The terminal that a pane shows, in any tab of the workspace shown.
    pub fn terminal_id_for_pane(&self, pane_id: PaneId) -> (terminal_id: Option<TerminalId>)
        ensures
            terminal_id == match self@.selected() {
                Some(workspace) => crate::model::terminal_in_tabs(workspace.tabs@, pane_id),
                None => None,
            },
    {
        match self.selected_workspace_dump() {
            Some(workspace) => terminal_id_in_workspace(workspace, pane_id),
            None => None,
        }
    }

    /// The terminal that a pane of the active connection shows. Servers number
    /// their panes on their own, so other connections do not count.
    pub fn terminal_id_for_pane_in_active_connection(&self, pane_id: PaneId) -> (terminal_id:
        Option<TerminalId>)
        ensures
            terminal_id == match self@.connection(self@.active_connection) {
                Some(connection) => connection.snapshot.terminal_in(pane_id),
                None => None,
            },
    {
        match self.connection_by_id(self.active_connection) {
            Some(connection) => terminal_id_in_snapshot(&connection.snapshot, pane_id),
            None => None,
        }
    }

    pub fn pi_agent_running_for_pane(&self, pane_id: PaneId) -> (running: bool)
        ensures
            running == crate::model::pi_runs_in(self@.snapshot, pane_id),
    {
        pi_agent_running_for_pane(&self.snapshot, pane_id)
    }

    pub fn pi_agent_running_for_terminal(&self, terminal_id: TerminalId) -> (running: bool)
        ensures
            running == crate::model::pi_runs_on(self@.snapshot, terminal_id),
    {
        pi_agent_running_for_terminal(&self.snapshot, terminal_id)
    }

    pub fn workspace_exists(&self, workspace_id: WorkspaceId) -> (there: bool)
        ensures
            there == (self@.workspace(workspace_id) is Some),
    {
        workspace_exists_in_snapshot(&self.snapshot, workspace_id)
    }
}

/// Servers do not share numbers: what one connection holds under a number says
/// nothing of another connection, whose state alone answers for it.
pub proof fn law_lookups_are_scoped(
    view: crate::view::ViewModel,
    connection_id: ConnectionId,
    workspace_id: WorkspaceId,
    pane_id: PaneId,
    others: Seq<crate::view::WorkspaceConnection>,
)
    requires
        forall|i: int| 0 <= i < others.len() ==> (#[trigger] others[i]).id != connection_id,
    ensures
        ({
            let wider = crate::view::ViewModel { connections: others + view.connections, ..view };
            &&& wider.workspace_in(connection_id, workspace_id) == view.workspace_in(
                connection_id,
                workspace_id,
            )
            &&& wider.agent_in(connection_id, pane_id) == view.agent_in(connection_id, pane_id)
        }),
{
    let property = crate::view::connection_has_id(connection_id);
    let all = others + view.connections;
    crate::lookup::lemma_first_where(view.connections, property);
    match crate::lookup::first_where(view.connections, property) {
        Some(index) => {
            assert forall|j: int| 0 <= j < others.len() + index implies !property(
                #[trigger] all[j],
            ) by {
                if j >= others.len() {
                    assert(all[j] == view.connections[j - others.len()]);
                }
            }
            assert(all[others.len() + index] == view.connections[index]);
            crate::lookup::lemma_is_first(all, property, others.len() + index);
        },
        None => {
            assert forall|j: int| 0 <= j < all.len() implies !property(#[trigger] all[j]) by {
                if j >= others.len() {
                    assert(all[j] == view.connections[j - others.len()]);
                }
            }
            crate::lookup::lemma_none_is_first(all, property);
        },
    }
}

/// A connection is found by its number: the first that has it.
pub proof fn law_connections_are_found_by_their_number(
    view: crate::view::ViewModel,
    id: ConnectionId,
    index: int,
)
    ensures
        0 <= index < view.connections.len() && view.connections[index].id == id && (forall|j: int|
            0 <= j < index ==> (#[trigger] view.connections[j]).id != id) ==> view.connection(id)
            == Some(view.connections[index]),
        view.connection(id) matches Some(found) ==> found.id == id && view.connections.contains(
            found,
        ),
        view.connection(id) is None ==> (forall|j: int|
            0 <= j < view.connections.len() ==> (#[trigger] view.connections[j]).id != id),
{
    let property = crate::view::connection_has_id(id);
    crate::lookup::lemma_first_where(view.connections, property);
    if 0 <= index < view.connections.len() && view.connections[index].id == id && (forall|j: int|
        0 <= j < index ==> (#[trigger] view.connections[j]).id != id) {
        crate::lookup::lemma_is_first(view.connections, property, index);
    }
    if view.connection(id) is None {
        assert forall|j: int| 0 <= j < view.connections.len() implies (
        #[trigger] view.connections[j]).id != id by {
            assert(!property(view.connections[j]));
        }
    }
}

/// A command is sent over the channel of the server that it is for; without
/// such a server nothing is sent. Input goes to the active server.
pub proof fn law_commands_go_to_their_server(
    view: crate::view::ViewModel,
    connection_id: ConnectionId,
    connection: crate::view::WorkspaceConnection,
    command: crate::command::CommandModel,
)
    ensures
        view.connection(connection_id) == Some(connection) ==> view.dispatching_on(
            connection_id,
            command,
        ) == (crate::view::ViewModel {
            effects: view.effects.push(
                crate::command::EffectModel::Dispatch {
                    transport: connection.client,
                    connection_id,
                    command,
                },
            ),
            ..view
        }),
        view.connection(connection_id) is None ==> view.dispatching_on(
            connection_id,
            command,
        ).effects == view.effects.push(crate::command::EffectModel::Notify),
        view.dispatching(command) == view.dispatching_on(view.active_connection, command),
        view.connection(view.active_connection) == Some(connection) ==> view.enqueueing(
            command,
        ).effects == view.effects.push(
            crate::command::EffectModel::Enqueue { transport: connection.client, command },
        ),
        view.connection(view.active_connection) is None ==> view.enqueueing(command).effects
            == view.effects.push(
            crate::command::EffectModel::Enqueue { transport: view.client, command },
        ),
{
}

/// What is shown comes from the selected workspace: its active tab, and the
/// terminal of the focused pane in it.
pub proof fn law_the_focused_terminal_is_in_the_active_tab(
    view: crate::view::ViewModel,
    workspace: crate::model::WorkspaceDump,
    tab: crate::model::TabDump,
    pane_id: PaneId,
    snapshot: crate::terminal::TerminalSnapshot,
)
    requires
        view.selected_workspace == Some(workspace.id),
        view.snapshot.workspace_of(workspace.id) == Some(workspace),
        workspace.active() == Some(tab),
        view.focused_pane == Some(pane_id),
    ensures
        view.active_terminal() == tab.tree.terminal_in(pane_id),
        view.active_tab() == workspace.active_tab,
        tab.tree.terminal_in(pane_id) is Some && view.terminal_snapshot(
            tab.tree.terminal_in(pane_id)->0,
        ) == Some(snapshot) ==> view.active_modes() == snapshot.modes,
        (crate::view::ViewModel { focused_pane: None, ..view }).active_terminal() is None,
        (crate::view::ViewModel { selected_workspace: None, ..view }).active_terminal() is None,
{
}

/// Menus, renamings and dialogs belong to things that are still there.
pub proof fn law_targets_are_told_by_what_is_there(
    view: crate::view::ViewModel,
    connection: crate::view::WorkspaceConnection,
    workspace_id: crate::ids::WorkspaceId,
    tab_id: crate::ids::TabId,
    pane_id: PaneId,
)
    requires
        view.connection(connection.id) == Some(connection),
    ensures
        view.menu_target_exists(ContextMenuTarget::Connection { connection_id: connection.id })
            <==> connection.kind == WorkspaceConnectionKind::Remote,
        view.menu_target_exists(
            ContextMenuTarget::Workspace { connection_id: connection.id, workspace_id },
        ) <==> connection.snapshot.workspace_of(workspace_id) is Some,
        view.menu_target_exists(ContextMenuTarget::Tab { tab_id }) <==> view.tab(tab_id) is Some,
        view.rename_target_exists(RenameTarget::Tab { tab_id }) <==> view.tab(tab_id) is Some,
        view.rename_target_exists(
            RenameTarget::Agent { connection_id: connection.id, pane_id },
        ) <==> connection.snapshot.agent_in(pane_id) is Some && connection.snapshot.agent_in(
            pane_id,
        )->0.status == crate::model::TerminalStatus::Running,
        view.dialog_target_exists(DialogState::ConnectRemote),
        view.dialog_target_exists(DialogState::ConfirmCloseWorkspace { workspace_id })
            <==> view.snapshot.workspace_of(workspace_id) is Some,
        view.dialog_target_exists(
            DialogState::RenameWorkspace { connection_id: connection.id, workspace_id },
        ) <==> connection.snapshot.workspace_of(workspace_id) is Some,
{
}

/// An open menu, renaming or dialog covers the window; only dialogs with a line
/// edit text.
pub proof fn law_overlays_cover_the_window(view: crate::view::ViewModel)
    ensures
        view.has_transient_ui() <==> !(view.overlay.rename_target is None
            && view.overlay.context_menu is None && view.overlay.dialog is None),
        view.edits_text() <==> view.overlay.dialog is Some && !(
        view.overlay.dialog->0 is ConfirmCloseWorkspace),
{
}

/// A window opens on its connection, at rest: the workspace and the pane that
/// its server has active, nothing selected, composed, scrolled or pressed. The
/// sidebar follows the configuration.
pub proof fn law_windows_open_at_rest(
    has_application: bool,
    connections: Seq<crate::view::WorkspaceConnection>,
    active: crate::view::WorkspaceConnection,
    config: crate::view::ViewConfig,
)
    ensures
        ({
            let view = crate::view::ViewModel::opened(has_application, connections, active, config);
            &&& view.connections == connections
            &&& view.active_connection == active.id
            &&& view.client == active.client
            &&& view.snapshot == *active.snapshot
            &&& view.selected_workspace == active.snapshot.selection_after(None)
            &&& view.focused_pane == active.snapshot.focus_in(
                view.selected_workspace,
                active.snapshot.focused_pane,
            )
            &&& view.selection is None
            &&& view.ime.terminal is None && view.ime.marked.len() == 0
            &&& view.terminal_snapshots.dom() == Set::<u128>::empty()
            &&& view.resize_requests.dom() == Set::<(u64, u128)>::empty()
            &&& view.scrolling.scroll_accumulators.dom() == Set::<u128>::empty()
            &&& view.scrolling.pending_viewport_requests.dom() == Set::<u128>::empty()
            &&& view.press.dragging_terminal is None && view.press.reported_mouse is None
            &&& view.press.split_drag is None && view.press.window_drag_start is None
            &&& view.sidebar.sidebar_collapsed == !config.sidebar_visible
            &&& view.sidebar.sidebar_width == config.sidebar_width
            &&& !view.has_transient_ui()
            &&& view.strip.pending_tab is None
            &&& view.effects.len() == 0
        }),
{
}

/// Turning to another connection shows its state, with nothing left of what
/// was selected, composed or scrolled on the one before. Grids and sizes that
/// were asked for are kept.
pub proof fn law_turning_to_a_connection_starts_afresh(
    view: crate::view::ViewModel,
    connection: crate::view::WorkspaceConnection,
)
    ensures
        ({
            let after = view.projecting(connection);
            &&& after.active_connection == connection.id
            &&& after.client == connection.client
            &&& after.snapshot == *connection.snapshot
            &&& after.selected_workspace == connection.snapshot.selection_after(None)
            &&& after.focused_pane == connection.snapshot.focus_in(
                after.selected_workspace,
                connection.snapshot.focused_pane,
            )
            &&& after.selection is None
            &&& after.ime.terminal is None
            &&& after.scrolling.scroll_accumulators.dom() == Set::<u128>::empty()
            &&& after.scrolling.active_trackpad_scrolls == Set::<u128>::empty()
            &&& after.scrolling.pending_viewport_requests.dom() == Set::<u128>::empty()
            &&& after.scrolling.mouse_scroll_animations.dom() == Set::<u128>::empty()
            &&& after.press.split_drag is None
            &&& after.strip.pending_tab is None
            &&& after.connections == view.connections
            &&& after.terminal_snapshots == view.terminal_snapshots
            &&& after.resize_requests == view.resize_requests
            &&& after.overlay == view.overlay
            &&& after.sidebar == view.sidebar
            &&& after.effects == view.effects.push(crate::command::EffectModel::ClearRenderCaches)
        }),
{
}

/// An agent has a menu while it runs.
pub proof fn law_running_agents_have_a_menu(
    view: crate::view::ViewModel,
    connection: crate::view::WorkspaceConnection,
    pane_id: PaneId,
    index: int,
)
    requires
        view.connection(connection.id) == Some(connection),
    ensures
        0 <= index < connection.snapshot.agents.len() && connection.snapshot.agents@[index].pane_id
            == pane_id && connection.snapshot.agents@[index].status
            == crate::model::TerminalStatus::Running ==> view.menu_target_exists(
            ContextMenuTarget::Agent { connection_id: connection.id, pane_id },
        ),
        (forall|i: int|
            0 <= i < connection.snapshot.agents.len() ==> (
            #[trigger] connection.snapshot.agents@[i]).pane_id != pane_id
                || connection.snapshot.agents@[i].status == crate::model::TerminalStatus::Exited)
            ==> !view.menu_target_exists(
            ContextMenuTarget::Agent { connection_id: connection.id, pane_id },
        ),
{
}

/// A window opens on the connection that it was asked for, or else on the first.
pub proof fn law_windows_open_on_their_connection(
    connections: Seq<crate::view::WorkspaceConnection>,
    id: ConnectionId,
    index: int,
)
    requires
        connections.len() > 0,
    ensures
        0 <= index < connections.len() && connections[index].id == id && (forall|j: int|
            0 <= j < index ==> (#[trigger] connections[j]).id != id)
            ==> crate::view::opening_connection(connections, id) == connections[index],
        (forall|j: int| 0 <= j < connections.len() ==> (#[trigger] connections[j]).id != id)
            ==> crate::view::opening_connection(connections, id) == connections[0],
{
    let property = crate::view::connection_has_id(id);
    if 0 <= index < connections.len() && connections[index].id == id && (forall|j: int|
        0 <= j < index ==> (#[trigger] connections[j]).id != id) {
        crate::lookup::lemma_is_first(connections, property, index);
    }
    if forall|j: int| 0 <= j < connections.len() ==> (#[trigger] connections[j]).id != id {
        crate::lookup::lemma_none_is_first(connections, property);
    }
}

} // verus!
