//! Presses on the parts of a window.

use crate::command::AppCommand;
use crate::command::Effect;
use crate::ids::ConnectionId;
use crate::ids::PaneId;
use crate::ids::TabId;
use crate::ids::WorkspaceId;
use crate::model::SplitAxis;
use crate::view::ContextMenuTarget;
use crate::view::PointerPosition;
use crate::view::SidebarDragSource;
use crate::view::SplitRect;
use crate::view::WorkspaceView;
use vstd::prelude::*;

verus! {

impl crate::view::ViewModel {
    pub open spec fn stopping(self) -> Self {
        self.asking(crate::command::EffectModel::StopPropagation)
    }

    /// With a workspace of a connection shown.
    #[verifier::opaque]
    pub open spec fn going_to(self, connection_id: ConnectionId, workspace_id: WorkspaceId) -> Self {
        self.selecting_connection(connection_id).selecting_workspace(workspace_id)
    }

    /// With a workspace of a connection shown and a pane focused.
    #[verifier::opaque]
    pub open spec fn visiting(
        self,
        connection_id: ConnectionId,
        workspace_id: WorkspaceId,
        pane: Option<PaneId>,
    ) -> Self {
        let there = self.without_menu().asking(
            crate::command::EffectModel::FocusWindow,
        ).going_to(connection_id, workspace_id);
        crate::view::ViewModel { focused_pane: pane, ..there }
    }

    /// With the row of a workspace pressed: it is shown at once, and may be
    /// dragged.
    pub open spec fn pressing_workspace(
        self,
        connection_id: ConnectionId,
        workspace_id: WorkspaceId,
        pane: Option<PaneId>,
        position: PointerPosition,
    ) -> Self {
        self.visiting(connection_id, workspace_id, pane).pressing_row(
            SidebarDragSource::Workspace { workspace_id },
            position,
        ).dispatching(
            crate::command::CommandModel::ActivateWorkspace { workspace_id },
        ).stopping()
    }

    /// With the row of an agent pressed: its pane is shown at once, and it may
    /// be dragged.
    pub open spec fn pressing_agent(
        self,
        connection_id: ConnectionId,
        workspace_id: WorkspaceId,
        pane_id: PaneId,
        position: PointerPosition,
    ) -> Self {
        self.visiting(connection_id, workspace_id, Some(pane_id)).pressing_row(
            SidebarDragSource::Agent { pane_id, workspace_id },
            position,
        ).dispatching(
            crate::command::CommandModel::FocusPane { pane_id, towards: None },
        ).stopping()
    }

    /// With the header of a connection pressed: it is shown, and folded or
    /// unfolded.
    pub open spec fn pressing_connection(self, connection_id: ConnectionId) -> Self {
        self.without_menu().asking(
            crate::command::EffectModel::FocusWindow,
        ).selecting_connection(connection_id).toggling_connection(connection_id).stopping()
    }

    pub open spec fn pressing_edge(self) -> Self {
        crate::view::ViewModel {
            sidebar: crate::view::SidebarModel { dragging_sidebar: true, ..self.sidebar },
            ..self
        }.asking(
            crate::command::EffectModel::FocusWindow,
        ).stopping().notified()
    }

    /// With the background pressed, from where the window can be dragged.
    pub open spec fn pressing_background(self, position: PointerPosition) -> Self {
        if self.has_transient_ui() {
            self.stopping()
        } else {
            self.asking(crate::command::EffectModel::FocusWindow).pressing_window(
                position,
            ).stopping()
        }
    }

    pub open spec fn pressing_new_tab(self) -> Self {
        if self.has_transient_ui() {
            self.stopping()
        } else {
            self.asking(crate::command::EffectModel::FocusWindow).opening_tab().stopping()
        }
    }

    /// With the title bar pressed. A double click zooms, and drags nothing.
    pub open spec fn pressing_titlebar(self, clicks: nat) -> Self {
        if clicks >= 2 {
            crate::view::ViewModel {
                press: crate::view::PressModel { titlebar_dragging: false, ..self.press },
                ..self
            }.asking(
                crate::command::EffectModel::ZoomWindow,
            )
        } else {
            crate::view::ViewModel {
                press: crate::view::PressModel { titlebar_dragging: true, ..self.press },
                ..self
            }
        }
    }

    pub open spec fn releasing_titlebar(self, clicks: nat) -> Self {
        if clicks >= 2 {
            self
        } else {
            crate::view::ViewModel {
                press: crate::view::PressModel { titlebar_dragging: false, ..self.press },
                ..self
            }
        }
    }

    pub open spec fn moving_titlebar(self) -> Self {
        if self.press.titlebar_dragging {
            crate::view::ViewModel {
                press: crate::view::PressModel { titlebar_dragging: false, ..self.press },
                ..self
            }.asking(
                crate::command::EffectModel::StartWindowMove,
            )
        } else {
            self
        }
    }
}

impl WorkspaceView {
    fn visit(&mut self, connection_id: ConnectionId, workspace_id: WorkspaceId, pane: Option<PaneId>)
        ensures
            final(self)@ == old(self)@.visiting(connection_id, workspace_id, pane),
            old(self)@.wf() ==> final(self)@.wf(),
    {
        reveal(crate::view::ViewModel::visiting);
        self.overlay.context_menu = None;
        self.ask(Effect::FocusWindow);
        self.go_to(connection_id, workspace_id);
        self.focused_pane = pane;
    }

    fn go_to(&mut self, connection_id: ConnectionId, workspace_id: WorkspaceId)
        ensures
            final(self)@ == old(self)@.going_to(connection_id, workspace_id),
            old(self)@.wf() ==> final(self)@.wf(),
    {
        reveal(crate::view::ViewModel::going_to);
        self.select_connection_locally(connection_id);
        self.select_workspace_locally(workspace_id);
    }

    /// Presses the row of a workspace; `pane` is the one that its active tab
    /// had active when the row was drawn.
    pub fn press_workspace_row(
        &mut self,
        connection_id: ConnectionId,
        workspace_id: WorkspaceId,
        pane: Option<PaneId>,
        position: PointerPosition,
    )
        ensures
            final(self)@ == old(self)@.pressing_workspace(
                connection_id,
                workspace_id,
                pane,
                position,
            ),
            old(self)@.wf() ==> final(self)@.wf(),
    {
        self.visit(connection_id, workspace_id, pane);
        self.begin_sidebar_drag(SidebarDragSource::Workspace { workspace_id }, position);
        self.dispatch(AppCommand::ActivateWorkspace { workspace_id });
        self.ask(Effect::StopPropagation);
    }

    /// Presses the row of an agent.
    pub fn press_agent_row(
        &mut self,
        connection_id: ConnectionId,
        workspace_id: WorkspaceId,
        pane_id: PaneId,
        position: PointerPosition,
    )
        ensures
            final(self)@ == old(self)@.pressing_agent(
                connection_id,
                workspace_id,
                pane_id,
                position,
            ),
            old(self)@.wf() ==> final(self)@.wf(),
    {
        self.visit(connection_id, workspace_id, Some(pane_id));
        self.begin_sidebar_drag(SidebarDragSource::Agent { pane_id, workspace_id }, position);
        self.dispatch(AppCommand::FocusPane { pane_id, towards: None });
        self.ask(Effect::StopPropagation);
    }

    /// Presses the header of a connection.
    pub fn press_connection_header(&mut self, connection_id: ConnectionId)
        ensures
            final(self)@ == old(self)@.pressing_connection(connection_id),
            old(self)@.wf() ==> final(self)@.wf(),
    {
        self.overlay.context_menu = None;
        self.ask(Effect::FocusWindow);
        self.select_connection_locally(connection_id);
        self.toggle_connection_collapsed(connection_id);
        self.ask(Effect::StopPropagation);
    }

    /// Presses the mark that folds a workspace.
    pub fn press_workspace_disclosure(
        &mut self,
        connection_id: ConnectionId,
        workspace_id: WorkspaceId,
    )
        ensures
            final(self)@ == old(self)@.toggling_workspace(connection_id, workspace_id).stopping(),
            old(self)@.wf() ==> final(self)@.wf(),
    {
        self.toggle_workspace_collapsed(connection_id, workspace_id);
        self.ask(Effect::StopPropagation);
    }

    /// Opens the menu of a row of a connection, which is shown then.
    pub fn open_row_menu(
        &mut self,
        connection_id: ConnectionId,
        target: ContextMenuTarget,
        position: PointerPosition,
    )
        ensures
            final(self)@ == old(self)@.selecting_connection(connection_id).opening_menu(
                target,
                position,
            ),
            old(self)@.wf() ==> final(self)@.wf(),
    {
        self.select_connection_locally(connection_id);
        self.open_context_menu(target, position);
    }

    pub fn press_sidebar_edge(&mut self)
        ensures
            final(self)@ == old(self)@.pressing_edge(),
            old(self)@.wf() ==> final(self)@.wf(),
    {
        self.sidebar.dragging_sidebar = true;
        self.ask(Effect::FocusWindow);
        self.ask(Effect::StopPropagation);
        self.notify();
    }

    pub fn press_connect_remote(&mut self)
        requires
            old(self)@.overlay.dialog_input_generation < u64::MAX,
        ensures
            final(self)@ == old(self)@.opening_connect().stopping(),
            old(self)@.wf() ==> final(self)@.wf(),
    {
        self.begin_connect_remote();
        self.ask(Effect::StopPropagation);
    }

    pub fn press_background(&mut self, position: PointerPosition)
        ensures
            final(self)@ == old(self)@.pressing_background(position),
            old(self)@.wf() ==> final(self)@.wf(),
    {
        if self.has_transient_ui() {
            self.ask(Effect::StopPropagation);
            return;
        }
        self.ask(Effect::FocusWindow);
        self.begin_window_drag(position);
        self.ask(Effect::StopPropagation);
    }

    pub fn press_new_tab(&mut self)
        ensures
            final(self)@ == old(self)@.pressing_new_tab(),
            old(self)@.wf() ==> final(self)@.wf(),
    {
        if self.has_transient_ui() {
            self.ask(Effect::StopPropagation);
            return;
        }
        self.ask(Effect::FocusWindow);
        self.new_terminal_tab();
        self.ask(Effect::StopPropagation);
    }

    pub fn press_sidebar_toggle(&mut self)
        ensures
            final(self)@ == old(self)@.toggling_sidebar().stopping(),
            old(self)@.wf() ==> final(self)@.wf(),
    {
        self.toggle_sidebar();
        self.ask(Effect::StopPropagation);
    }

    /// Presses a divider.
    pub fn press_divider(
        &mut self,
        tab_id: TabId,
        path: Vec<bool>,
        axis: SplitAxis,
        rect: Option<SplitRect>,
        start: u32,
    )
        ensures
            final(self)@ == old(self)@.asking(
                crate::command::EffectModel::FocusWindow,
            ).pressing_divider(tab_id, path@, axis, rect, start).stopping(),
            old(self)@.wf() ==> final(self)@.wf(),
    {
        self.ask(Effect::FocusWindow);
        self.begin_split_drag(tab_id, path, axis, rect, start);
        self.ask(Effect::StopPropagation);
    }

    /// Presses the title bar; `clicks` counts quick presses.
    pub fn press_titlebar(&mut self, clicks: usize)
        ensures
            final(self)@ == old(self)@.pressing_titlebar(clicks as nat),
            old(self)@.wf() ==> final(self)@.wf(),
    {
        if clicks >= 2 {
            self.press.titlebar_dragging = false;
            self.ask(Effect::ZoomWindow);
        } else {
            self.press.titlebar_dragging = true;
        }
    }

    pub fn release_titlebar(&mut self, clicks: usize)
        ensures
            final(self)@ == old(self)@.releasing_titlebar(clicks as nat),
            old(self)@.wf() ==> final(self)@.wf(),
    {
        if clicks < 2 {
            self.press.titlebar_dragging = false;
        }
    }

    /// Moves the mouse over the title bar: a press becomes a drag of the
    /// window once.
    pub fn move_over_titlebar(&mut self)
        ensures
            final(self)@ == old(self)@.moving_titlebar(),
            old(self)@.wf() ==> final(self)@.wf(),
    {
        if self.press.titlebar_dragging {
            self.press.titlebar_dragging = false;
            self.ask(Effect::StartWindowMove);
        }
    }

    /// Presses outside the title bar.
    pub fn press_outside_titlebar(&mut self)
        ensures
            final(self)@ == (crate::view::ViewModel {
                press: crate::view::PressModel { titlebar_dragging: false, ..old(self)@.press },
                ..old(self)@
            }),
            old(self)@.wf() ==> final(self)@.wf(),
    {
        self.press.titlebar_dragging = false;
    }
}

/// A press on a row shows its place at once, without waiting for the server.
pub proof fn law_rows_show_their_place(
    view: crate::view::ViewModel,
    connection_id: ConnectionId,
    workspace_id: WorkspaceId,
    pane_id: PaneId,
    position: PointerPosition,
)
    requires
        view.active_connection == connection_id || view.connection(connection_id) is Some,
        view.active_connection == connection_id ==> view.workspace(workspace_id) is Some,
        view.active_connection != connection_id ==> view.workspace_in(
            connection_id,
            workspace_id,
        ) is Some,
    ensures
        ({
            let after = view.pressing_agent(connection_id, workspace_id, pane_id, position);
            &&& after.active_connection == connection_id
            &&& after.selected_workspace == Some(workspace_id)
            &&& after.focused_pane == Some(pane_id)
            &&& after.overlay.context_menu is None
        }),
{
    reveal(crate::view::ViewModel::going_to);
    reveal(crate::view::ViewModel::visiting);
    if view.active_connection != connection_id {
        crate::lookup::lemma_first_where(
            view.connections,
            crate::view::connection_has_id(connection_id),
        );
    }
}

/// One press on the title bar drags the window at most once.
pub proof fn law_titlebar_drags_once(view: crate::view::ViewModel, clicks: nat)
    ensures
        view.pressing_titlebar(clicks).moving_titlebar().moving_titlebar()
            == view.pressing_titlebar(clicks).moving_titlebar(),
        clicks >= 2 ==> view.pressing_titlebar(clicks).moving_titlebar()
            == view.pressing_titlebar(clicks),
{
}

/// A press on a row of the sidebar goes to the workspace of the row, focuses
/// the pane given, starts a drag of the row, and tells the server.
pub proof fn law_pressed_rows_are_gone_to(
    view: crate::view::ViewModel,
    connection: crate::view::WorkspaceConnection,
    workspace: crate::model::WorkspaceDump,
    pane_id: PaneId,
    position: PointerPosition,
)
    requires
        view.active_connection == connection.id,
        view.connection(connection.id) == Some(connection),
        view.workspace(workspace.id) == Some(workspace),
    ensures
        ({
            let row = view.pressing_workspace(
                connection.id,
                workspace.id,
                workspace.active_pane(),
                position,
            );
            let agent = view.pressing_agent(connection.id, workspace.id, pane_id, position);
            &&& row.selected_workspace == Some(workspace.id)
            &&& row.focused_pane == workspace.active_pane()
            &&& row.overlay.context_menu is None
            &&& row.sidebar.sidebar_drag == Some(
                crate::view::SidebarDrag {
                    source: SidebarDragSource::Workspace { workspace_id: workspace.id },
                    start: position,
                    active: false,
                },
            )
            &&& row.effects[row.effects.len() - 2] == (crate::command::EffectModel::Dispatch {
                transport: connection.client,
                connection_id: connection.id,
                command: crate::command::CommandModel::ActivateWorkspace {
                    workspace_id: workspace.id,
                },
            })
            &&& row.effects.last() == crate::command::EffectModel::StopPropagation
            &&& agent.selected_workspace == Some(workspace.id)
            &&& agent.focused_pane == Some(pane_id)
            &&& agent.sidebar.sidebar_drag == Some(
                crate::view::SidebarDrag {
                    source: SidebarDragSource::Agent { pane_id, workspace_id: workspace.id },
                    start: position,
                    active: false,
                },
            )
            &&& agent.effects[agent.effects.len() - 2] == (crate::command::EffectModel::Dispatch {
                transport: connection.client,
                connection_id: connection.id,
                command: crate::command::CommandModel::FocusPane { pane_id, towards: None },
            })
            &&& agent.effects.last() == crate::command::EffectModel::StopPropagation
        }),
{
    reveal(crate::view::ViewModel::visiting);
    reveal(crate::view::ViewModel::going_to);
}

/// A press on a connection turns to it and folds or unfolds it.
pub proof fn law_pressed_connections_fold(
    view: crate::view::ViewModel,
    connection: crate::view::WorkspaceConnection,
)
    requires
        view.connection(connection.id) == Some(connection),
    ensures
        ({
            let after = view.pressing_connection(connection.id);
            &&& after.active_connection == connection.id
            &&& after.sidebar.collapsed_connections.contains(connection.id.raw)
                == !view.sidebar.collapsed_connections.contains(connection.id.raw)
            &&& after.overlay.context_menu is None
            &&& after.effects.last() == crate::command::EffectModel::StopPropagation
        }),
{
}

/// A press beside everything can move the window; one on the button for a new
/// tab asks for one. Overlays keep both off.
pub proof fn law_presses_beside_move_the_window(
    view: crate::view::ViewModel,
    connection: crate::view::WorkspaceConnection,
    workspace_id: WorkspaceId,
    position: PointerPosition,
)
    requires
        view.connection(view.active_connection) == Some(connection),
        view.selected_workspace == Some(workspace_id),
    ensures
        !view.has_transient_ui() ==> view.pressing_background(position).press.window_drag_start
            == Some(position) && view.pressing_new_tab().effects == view.effects.push(
            crate::command::EffectModel::FocusWindow,
        ).push(
            crate::command::EffectModel::Dispatch {
                transport: connection.client,
                connection_id: view.active_connection,
                command: crate::command::CommandModel::NewTab { workspace_id },
            },
        ).push(crate::command::EffectModel::StopPropagation),
        view.has_transient_ui() ==> view.pressing_background(position).press == view.press
            && view.pressing_background(position).effects == view.effects.push(
            crate::command::EffectModel::StopPropagation,
        ) && view.pressing_new_tab().effects == view.effects.push(
            crate::command::EffectModel::StopPropagation,
        ),
        view.pressing_edge().sidebar.dragging_sidebar,
        view.pressing_edge().effects == view.effects.push(
            crate::command::EffectModel::FocusWindow,
        ).push(crate::command::EffectModel::StopPropagation).push(
            crate::command::EffectModel::Notify,
        ),
{
}

/// A double click on the titlebar zooms the window; a single press lets the
/// next movement move it.
pub proof fn law_titlebars_move_and_zoom(view: crate::view::ViewModel, clicks: nat)
    ensures
        clicks >= 2 ==> view.pressing_titlebar(clicks).effects == view.effects.push(
            crate::command::EffectModel::ZoomWindow,
        ) && !view.pressing_titlebar(clicks).press.titlebar_dragging,
        clicks < 2 ==> view.pressing_titlebar(clicks).effects == view.effects
            && view.pressing_titlebar(clicks).press.titlebar_dragging,
        clicks < 2 ==> view.pressing_titlebar(clicks).moving_titlebar().effects
            == view.effects.push(crate::command::EffectModel::StartWindowMove),
        clicks < 2 ==> !view.releasing_titlebar(clicks).press.titlebar_dragging,
        clicks >= 2 ==> view.releasing_titlebar(clicks) == view,
{
}

} // verus!
