//! Menus and the actions of a window.

use crate::command::AppCommand;
use crate::command::Effect;
use crate::command::SplitDirection;
use crate::ids::TabId;
use crate::view::ContextMenuTarget;
use crate::view::WorkspaceView;
use vstd::prelude::*;

verus! {

#[derive(Clone, Copy, PartialEq, Eq, Structural, Debug)]
pub enum MenuItem {
    RenameWorkspace,
    RenameTab,
    RenameAgent,
    CloseWorkspace,
    CloseTab,
    Disconnect,
    KillServer,
}

/// What can be done to the target of a menu, in the order shown.
pub open spec fn items_of(target: ContextMenuTarget) -> Seq<MenuItem> {
    match target {
        ContextMenuTarget::Connection { .. } => seq![MenuItem::Disconnect, MenuItem::KillServer],
        ContextMenuTarget::Workspace { .. } => seq![
            MenuItem::RenameWorkspace,
            MenuItem::CloseWorkspace,
        ],
        ContextMenuTarget::Tab { .. } => seq![MenuItem::RenameTab, MenuItem::CloseTab],
        ContextMenuTarget::Agent { .. } => seq![MenuItem::RenameAgent],
    }
}

/// What can be done to the target of a menu, in the order shown.
pub fn menu_items(target: ContextMenuTarget) -> (items: Vec<MenuItem>)
    ensures
        items@ == items_of(target),
{
    let mut items: Vec<MenuItem> = Vec::new();
    match target {
        ContextMenuTarget::Connection { .. } => {
            items.push(MenuItem::Disconnect);
            items.push(MenuItem::KillServer);
        },
        ContextMenuTarget::Workspace { .. } => {
            items.push(MenuItem::RenameWorkspace);
            items.push(MenuItem::CloseWorkspace);
        },
        ContextMenuTarget::Tab { .. } => {
            items.push(MenuItem::RenameTab);
            items.push(MenuItem::CloseTab);
        },
        ContextMenuTarget::Agent { .. } => {
            items.push(MenuItem::RenameAgent);
        },
    }
    assert(items@ =~= items_of(target));
    items
}

impl MenuItem {
    pub open spec fn label_spec(self) -> Seq<char> {
        match self {
            MenuItem::RenameWorkspace => "Rename workspace"@,
            MenuItem::RenameTab => "Rename tab"@,
            MenuItem::RenameAgent => "Rename agent"@,
            MenuItem::CloseWorkspace => "Close workspace"@,
            MenuItem::CloseTab => "Close tab"@,
            MenuItem::Disconnect => "Disconnect"@,
            MenuItem::KillServer => "Kill Server"@,
        }
    }

    pub fn label(self) -> (label: String)
        ensures
            label@ == self.label_spec(),
    {
        match self {
            MenuItem::RenameWorkspace => "Rename workspace".to_owned(),
            MenuItem::RenameTab => "Rename tab".to_owned(),
            MenuItem::RenameAgent => "Rename agent".to_owned(),
            MenuItem::CloseWorkspace => "Close workspace".to_owned(),
            MenuItem::CloseTab => "Close tab".to_owned(),
            MenuItem::Disconnect => "Disconnect".to_owned(),
            MenuItem::KillServer => "Kill Server".to_owned(),
        }
    }
}

/// An action that a shortcut or a menu of the application can ask for.
#[derive(Clone, Copy, PartialEq, Eq, Structural, Debug)]
pub enum WindowAction {
    NewTerminalTab,
    SplitRight,
    SplitDown,
    NewWorkspace,
    ToggleSidebar,
    /// The tab at a place, counted from zero.
    ActivateTab { index: usize },
    NextTab,
    PreviousTab,
    NextWorkspace,
    PreviousWorkspace,
    RenameWorkspace,
    RenameTab,
}

impl crate::view::ViewModel {
    pub open spec fn without_menu(self) -> Self {
        crate::view::ViewModel {
            overlay: crate::view::OverlayModel { context_menu: None, ..self.overlay },
            ..self
        }
    }

    pub open spec fn closing_tab(self, tab_id: TabId) -> Self {
        self.without_menu().dispatching(
            crate::command::CommandModel::CloseTab { tab_id },
        ).notified()
    }

    pub open spec fn asking_application(self, effect: crate::command::EffectModel) -> Self {
        if self.has_application {
            self.without_menu().asking(effect)
        } else {
            self.without_menu()
        }
    }

    /// With an item of the menu of a target chosen.
    pub open spec fn choosing(self, target: ContextMenuTarget, item: MenuItem) -> Self {
        match (target, item) {
            (
                ContextMenuTarget::Workspace { connection_id, workspace_id },
                MenuItem::RenameWorkspace,
            ) => self.without_menu().renaming_workspace(connection_id, workspace_id),
            (ContextMenuTarget::Tab { tab_id }, MenuItem::RenameTab) => {
                self.without_menu().renaming_tab(tab_id)
            },
            (ContextMenuTarget::Agent { connection_id, pane_id }, MenuItem::RenameAgent) => {
                self.without_menu().renaming_agent(connection_id, pane_id)
            },
            (ContextMenuTarget::Workspace { workspace_id, .. }, MenuItem::CloseWorkspace) => {
                self.requesting_close(workspace_id)
            },
            (ContextMenuTarget::Tab { tab_id }, MenuItem::CloseTab) => self.closing_tab(tab_id),
            (ContextMenuTarget::Connection { connection_id }, MenuItem::Disconnect) => {
                self.asking_application(
                    crate::command::EffectModel::Disconnect { connection_id },
                )
            },
            (ContextMenuTarget::Connection { connection_id }, MenuItem::KillServer) => {
                self.asking_application(
                    crate::command::EffectModel::KillServer { connection_id },
                )
            },
            _ => self,
        }
    }

    /// With the menu closed by a press beside it.
    pub open spec fn dismissing_menu(self) -> Self {
        self.without_menu().asking(crate::command::EffectModel::StopPropagation).notified()
    }

    /// With an action done while nothing is on top of the window.
    pub open spec fn acting(self, action: WindowAction) -> Self {
        match action {
            WindowAction::NewTerminalTab => self.opening_tab(),
            WindowAction::SplitRight => self.splitting(SplitDirection::Right),
            WindowAction::SplitDown => self.splitting(SplitDirection::Down),
            WindowAction::NewWorkspace => self.asking(
                crate::command::EffectModel::CreateWorkspace { transport: self.client },
            ),
            WindowAction::ToggleSidebar => self.toggling_sidebar(),
            WindowAction::ActivateTab { index } => self.activating_tab(index as int),
            WindowAction::NextTab => self.stepping_tabs(1),
            WindowAction::PreviousTab => self.stepping_tabs(-1),
            WindowAction::NextWorkspace => self.stepping_workspaces(1),
            WindowAction::PreviousWorkspace => self.stepping_workspaces(-1),
            WindowAction::RenameWorkspace => self.renaming_active_workspace(),
            WindowAction::RenameTab => self.renaming_active_tab(),
        }
    }

    /// With an action asked for. What is on top of the window keeps it off.
    pub open spec fn performing(self, action: WindowAction) -> Self {
        if self.has_transient_ui() {
            self
        } else {
            self.acting(action)
        }
    }
}

impl WorkspaceView {
    fn close_tab(&mut self, tab_id: TabId)
        ensures
            final(self)@ == old(self)@.closing_tab(tab_id),
            old(self)@.wf() ==> final(self)@.wf(),
    {
        self.overlay.context_menu = None;
        self.dispatch(AppCommand::CloseTab { tab_id });
        self.notify();
    }

    fn ask_application(&mut self, effect: Effect)
        ensures
            final(self)@ == old(self)@.asking_application(effect@),
            old(self)@.wf() ==> final(self)@.wf(),
    {
        self.overlay.context_menu = None;
        if self.has_application {
            self.ask(effect);
        }
    }

    fn apply_menu_item(&mut self, target: ContextMenuTarget, item: MenuItem)
        requires
            old(self)@.overlay.dialog_input_generation < u64::MAX,
        ensures
            final(self)@ == old(self)@.choosing(target, item),
            old(self)@.wf() ==> final(self)@.wf(),
    {
        match (target, item) {
            (
                ContextMenuTarget::Workspace { connection_id, workspace_id },
                MenuItem::RenameWorkspace,
            ) => {
                self.overlay.context_menu = None;
                self.begin_rename_workspace(connection_id, workspace_id);
            },
            (ContextMenuTarget::Tab { tab_id }, MenuItem::RenameTab) => {
                self.overlay.context_menu = None;
                self.begin_rename_tab(tab_id);
            },
            (ContextMenuTarget::Agent { connection_id, pane_id }, MenuItem::RenameAgent) => {
                self.overlay.context_menu = None;
                self.begin_rename_agent(connection_id, pane_id);
            },
            (ContextMenuTarget::Workspace { workspace_id, .. }, MenuItem::CloseWorkspace) => {
                self.request_close_workspace(workspace_id);
            },
            (ContextMenuTarget::Tab { tab_id }, MenuItem::CloseTab) => {
                self.close_tab(tab_id);
            },
            (ContextMenuTarget::Connection { connection_id }, MenuItem::Disconnect) => {
                self.ask_application(Effect::Disconnect { connection_id });
            },
            (ContextMenuTarget::Connection { connection_id }, MenuItem::KillServer) => {
                self.ask_application(Effect::KillServer { connection_id });
            },
            _ => {},
        }
    }

    /// Chooses an item of the menu of a target.
    pub fn choose_menu_item(&mut self, target: ContextMenuTarget, item: MenuItem)
        requires
            old(self)@.overlay.dialog_input_generation < u64::MAX,
        ensures
            final(self)@ == old(self)@.choosing(target, item).asking(
                crate::command::EffectModel::StopPropagation,
            ),
            old(self)@.wf() ==> final(self)@.wf(),
    {
        self.apply_menu_item(target, item);
        self.ask(Effect::StopPropagation);
    }

    /// Closes the menu.
    pub fn dismiss_menu(&mut self)
        ensures
            final(self)@ == old(self)@.dismissing_menu(),
            old(self)@.wf() ==> final(self)@.wf(),
    {
        self.overlay.context_menu = None;
        self.ask(Effect::StopPropagation);
        self.notify();
    }

    fn act(&mut self, action: WindowAction)
        requires
            old(self)@.overlay.dialog_input_generation < u64::MAX,
        ensures
            final(self)@ == old(self)@.acting(action),
            old(self)@.wf() ==> final(self)@.wf(),
    {
        match action {
            WindowAction::NewTerminalTab => self.new_terminal_tab(),
            WindowAction::SplitRight => self.split_active_pane(SplitDirection::Right),
            WindowAction::SplitDown => self.split_active_pane(SplitDirection::Down),
            WindowAction::NewWorkspace => self.dispatch_new_workspace(),
            WindowAction::ToggleSidebar => self.toggle_sidebar(),
            WindowAction::ActivateTab { index } => self.activate_tab_index(index),
            WindowAction::NextTab => self.activate_relative_tab(1),
            WindowAction::PreviousTab => self.activate_relative_tab(-1),
            WindowAction::NextWorkspace => self.activate_relative_workspace(1),
            WindowAction::PreviousWorkspace => self.activate_relative_workspace(-1),
            WindowAction::RenameWorkspace => self.begin_rename_active_workspace(),
            WindowAction::RenameTab => self.begin_rename_active_tab(),
        }
    }

    /// Performs an action of the window.
    pub fn perform_action(&mut self, action: WindowAction)
        requires
            old(self)@.overlay.dialog_input_generation < u64::MAX,
        ensures
            final(self)@ == old(self)@.performing(action),
            old(self)@.wf() ==> final(self)@.wf(),
    {
        if !self.has_transient_ui() {
            self.act(action);
        }
    }
}

/// While something is on top of the window, no action is performed.
pub proof fn law_overlays_keep_actions_off(view: crate::view::ViewModel, action: WindowAction)
    requires
        view.has_transient_ui(),
    ensures
        view.performing(action) == view,
{
}

/// Every item that a menu shows closes the menu.
pub proof fn law_items_close_their_menu(
    view: crate::view::ViewModel,
    target: ContextMenuTarget,
    index: int,
)
    requires
        0 <= index < items_of(target).len(),
        view.menu_target_exists(target),
        target matches ContextMenuTarget::Workspace { connection_id, .. } ==> connection_id
            == view.active_connection && view.connection(connection_id)->0.snapshot
            == view.snapshot,
    ensures
        view.choosing(target, items_of(target)[index]).overlay.context_menu is None,
{
}

/// Each item of a menu does what it says to the target of the menu.
pub proof fn law_items_do_what_they_say(
    view: crate::view::ViewModel,
    active: crate::view::WorkspaceConnection,
    connection_id: crate::ids::ConnectionId,
    workspace_id: crate::ids::WorkspaceId,
    tab_id: TabId,
    pane_id: crate::ids::PaneId,
)
    requires
        view.connection(view.active_connection) == Some(active),
        view.has_application,
    ensures
        ({
            let closed = crate::view::ViewModel {
                overlay: crate::view::OverlayModel { context_menu: None, ..view.overlay },
                ..view
            };
            let server = ContextMenuTarget::Connection { connection_id };
            let workspace = ContextMenuTarget::Workspace { connection_id, workspace_id };
            let tab = ContextMenuTarget::Tab { tab_id };
            let agent = ContextMenuTarget::Agent { connection_id, pane_id };
            &&& view.choosing(server, MenuItem::Disconnect).effects == view.effects.push(
                crate::command::EffectModel::Disconnect { connection_id },
            )
            &&& view.choosing(server, MenuItem::KillServer).effects == view.effects.push(
                crate::command::EffectModel::KillServer { connection_id },
            )
            &&& view.choosing(workspace, MenuItem::RenameWorkspace) == closed.renaming_workspace(
                connection_id,
                workspace_id,
            )
            &&& view.choosing(workspace, MenuItem::CloseWorkspace) == view.requesting_close(
                workspace_id,
            )
            &&& view.choosing(tab, MenuItem::RenameTab) == closed.renaming_tab(tab_id)
            &&& view.choosing(tab, MenuItem::CloseTab).overlay.context_menu is None
            &&& view.choosing(tab, MenuItem::CloseTab).effects == view.effects.push(
                crate::command::EffectModel::Dispatch {
                    transport: active.client,
                    connection_id: view.active_connection,
                    command: crate::command::CommandModel::CloseTab { tab_id },
                },
            ).push(crate::command::EffectModel::Notify)
            &&& view.choosing(agent, MenuItem::RenameAgent) == closed.renaming_agent(
                connection_id,
                pane_id,
            )
        }),
{
}

/// A menu offers what can be done with its target, renaming before closing.
pub proof fn law_menus_offer_what_can_be_done(
    connection_id: crate::ids::ConnectionId,
    workspace_id: crate::ids::WorkspaceId,
    tab_id: TabId,
    pane_id: crate::ids::PaneId,
)
    ensures
        items_of(ContextMenuTarget::Connection { connection_id }) =~= seq![
            MenuItem::Disconnect,
            MenuItem::KillServer,
        ],
        items_of(ContextMenuTarget::Workspace { connection_id, workspace_id }) =~= seq![
            MenuItem::RenameWorkspace,
            MenuItem::CloseWorkspace,
        ],
        items_of(ContextMenuTarget::Tab { tab_id }) =~= seq![
            MenuItem::RenameTab,
            MenuItem::CloseTab,
        ],
        items_of(ContextMenuTarget::Agent { connection_id, pane_id }) =~= seq![
            MenuItem::RenameAgent,
        ],
        MenuItem::Disconnect.label_spec() == "Disconnect"@,
        MenuItem::KillServer.label_spec() == "Kill Server"@,
        MenuItem::CloseTab.label_spec() == "Close tab"@,
        MenuItem::CloseWorkspace.label_spec() == "Close workspace"@,
        MenuItem::RenameTab.label_spec() == "Rename tab"@,
        MenuItem::RenameWorkspace.label_spec() == "Rename workspace"@,
        MenuItem::RenameAgent.label_spec() == "Rename agent"@,
{
}

/// Each action of the window does its own thing, where nothing covers the
/// window: those with a direction go in theirs.
pub proof fn law_actions_do_their_own_thing(
    view: crate::view::ViewModel,
    connection: crate::view::WorkspaceConnection,
    workspace: crate::model::WorkspaceDump,
    pane_id: crate::ids::PaneId,
    index: usize,
)
    requires
        !view.has_transient_ui(),
        view.connection(view.active_connection) == Some(connection),
        view.selected_workspace == Some(workspace.id),
        view.selected() == Some(workspace),
        view.focused_pane == Some(pane_id),
        workspace.active_tab_shows(pane_id),
    ensures
        view.performing(WindowAction::NewTerminalTab).effects == view.effects.push(
            crate::command::EffectModel::Dispatch {
                transport: connection.client,
                connection_id: view.active_connection,
                command: crate::command::CommandModel::NewTab { workspace_id: workspace.id },
            },
        ),
        view.performing(WindowAction::SplitRight).effects == view.effects.push(
            crate::command::EffectModel::Dispatch {
                transport: connection.client,
                connection_id: view.active_connection,
                command: crate::command::CommandModel::SplitPane {
                    pane_id,
                    direction: SplitDirection::Right,
                },
            },
        ),
        view.performing(WindowAction::SplitDown).effects == view.effects.push(
            crate::command::EffectModel::Dispatch {
                transport: connection.client,
                connection_id: view.active_connection,
                command: crate::command::CommandModel::SplitPane {
                    pane_id,
                    direction: SplitDirection::Down,
                },
            },
        ),
        view.performing(WindowAction::NewWorkspace).effects == view.effects.push(
            crate::command::EffectModel::CreateWorkspace { transport: view.client },
        ),
        view.performing(WindowAction::ToggleSidebar).sidebar.sidebar_collapsed
            == !view.sidebar.sidebar_collapsed,
        index < workspace.tabs.len() ==> view.performing(
            WindowAction::ActivateTab { index },
        ).strip.pending_tab == Some(workspace.tabs@[index as int].id),
        view.performing(WindowAction::NextTab) == view.stepping_tabs(1),
        view.performing(WindowAction::PreviousTab) == view.stepping_tabs(-1),
        view.performing(WindowAction::NextWorkspace) == view.stepping_workspaces(1),
        view.performing(WindowAction::PreviousWorkspace) == view.stepping_workspaces(-1),
        view.performing(WindowAction::RenameWorkspace) == view.renaming_workspace(
            view.active_connection,
            workspace.id,
        ),
        workspace.active_tab is Some ==> view.performing(WindowAction::RenameTab)
            == view.renaming_tab(workspace.active_tab->0),
{
}

/// A press beside a menu closes it and does nothing else.
pub proof fn law_presses_beside_close_the_menu(view: crate::view::ViewModel)
    ensures
        ({
            let after = view.dismissing_menu();
            &&& after.overlay.context_menu is None
            &&& after.overlay.dialog == view.overlay.dialog
            &&& after.effects == view.effects.push(
                crate::command::EffectModel::StopPropagation,
            ).push(crate::command::EffectModel::Notify)
        }),
{
}

} // verus!
