//! Which workspace, tab and pane a window shows.

use crate::arith::wrapped_index;
use crate::command::AppCommand;
use crate::command::Effect;
use crate::command::OperationResult;
use crate::command::SplitDirection;
use crate::ids::PaneId;
use crate::ids::TabId;
use crate::ids::WorkspaceId;
use crate::model::focused_pane_for_workspace;
use crate::model::shown_workspace;
use crate::model::shown_workspace_count;
use crate::model::tab_index;
use crate::model::workspace_active_pane;
use crate::model::workspace_index;
use crate::view::ContextMenuState;
use crate::view::ContextMenuTarget;
use crate::view::PointerPosition;
use crate::view::WorkspaceView;
use vstd::prelude::*;

verus! {

impl crate::view::ViewModel {
    /// Showing a workspace with a pane focused, with nothing under way.
    pub open spec fn showing(self, workspace_id: WorkspaceId, pane: Option<PaneId>) -> Self {
        crate::view::ViewModel {
            selected_workspace: Some(workspace_id),
            focused_pane: pane,
            selection: None,
            strip: crate::view::StripModel { pending_tab: None, ..self.strip },
            press: crate::view::PressModel { split_drag: None, ..self.press },
            ..self
        }.without_ime()
    }

    /// Showing a workspace, if there is one of that number.
    pub open spec fn selecting_workspace(self, workspace_id: WorkspaceId) -> Self {
        match self.workspace(workspace_id) {
            Some(workspace) => self.showing(workspace_id, workspace.active_pane()).notified_if(
                self.workspace_would_change(workspace_id),
            ),
            None => self,
        }
    }

    /// Showing a workspace changes what the window shows.
    pub open spec fn workspace_would_change(self, workspace_id: WorkspaceId) -> bool {
        match self.workspace(workspace_id) {
            Some(workspace) => self.selected_workspace != Some(workspace_id) || self.focused_pane
                != workspace.active_pane(),
            None => false,
        }
    }

    /// With the activation of a workspace taken over before the server
    /// confirms it.
    pub open spec fn activated_locally(self, workspace_id: WorkspaceId) -> Self {
        match self.workspace(workspace_id) {
            Some(workspace) => if self.selected_workspace == Some(workspace_id) {
                self
            } else {
                self.showing(workspace_id, workspace.active_pane())
            },
            None => self,
        }
    }

    /// Taking the activation over moves the focus.
    pub open spec fn activation_moves_focus(self, workspace_id: WorkspaceId) -> bool {
        match self.workspace(workspace_id) {
            Some(workspace) => self.selected_workspace != Some(workspace_id) && self.focused_pane
                != workspace.active_pane(),
            None => false,
        }
    }

    /// With the focus on a pane and nothing selected or composed.
    pub open spec fn focusing(self, pane: Option<PaneId>) -> Self {
        crate::view::ViewModel { focused_pane: pane, selection: None, ..self }.without_ime()
    }

    /// Asking for the tab at an index of the workspace shown, if there is one.
    pub open spec fn activating_tab(self, index: int) -> Self {
        match self.selected() {
            Some(workspace) => if 0 <= index < workspace.tabs.len() {
                let tab = workspace.tabs@[index];
                crate::view::ViewModel {
                    strip: crate::view::StripModel { pending_tab: Some(tab.id), ..self.strip },
                    press: crate::view::PressModel { split_drag: None, ..self.press },
                    ..self
                }.focusing(Some(tab.active_pane)).dispatching(
                    crate::command::CommandModel::ActivateTab { tab_id: tab.id },
                )
            } else {
                self
            },
            None => self,
        }
    }

    /// The place in the tab strip from which the next step goes: the tab that
    /// was asked for last, while it is not active yet.
    pub open spec fn tab_place(self, workspace: crate::model::WorkspaceDump) -> int {
        let active = match workspace.active_tab {
            Some(tab_id) => match workspace.tab_index(tab_id) {
                Some(index) => index,
                None => 0,
            },
            None => 0,
        };
        match self.strip.pending_tab {
            Some(tab_id) => match workspace.tab_index(tab_id) {
                Some(index) => index,
                None => active,
            },
            None => active,
        }
    }

    /// Asking for the tab some steps on, around the ends of the strip.
    pub open spec fn stepping_tabs(self, direction: int) -> Self {
        match self.selected() {
            Some(workspace) => if workspace.tabs.len() == 0 {
                self
            } else {
                self.activating_tab(
                    (self.tab_place(workspace) + direction) % (workspace.tabs.len() as int),
                )
            },
            None => self,
        }
    }

    /// The place of the workspace shown among all.
    pub open spec fn workspace_place(self) -> int {
        match self.selected_workspace {
            Some(workspace_id) => match crate::lookup::first_where(
                self.snapshot.shown(),
                crate::model::workspace_has_id(workspace_id),
            ) {
                Some(index) => index,
                None => 0,
            },
            None => 0,
        }
    }

    /// The workspace some steps on, around the ends of the list.
    pub open spec fn next_workspace(self, direction: int) -> Option<WorkspaceId> {
        let shown = self.snapshot.shown();
        if shown.len() == 0 {
            None
        } else {
            Some(shown[(self.workspace_place() + direction) % (shown.len() as int)].id)
        }
    }

    /// Showing the workspace some steps on and asking the server to activate
    /// it.
    pub open spec fn stepping_workspaces(self, direction: int) -> Self {
        match self.next_workspace(direction) {
            Some(workspace_id) => self.activated_locally(workspace_id).notified_if(
                self.activation_moves_focus(workspace_id),
            ).dispatching(crate::command::CommandModel::ActivateWorkspace { workspace_id }),
            None => self,
        }
    }

    pub open spec fn opening_tab(self) -> Self {
        match self.selected_workspace {
            Some(workspace_id) => self.dispatching(
                crate::command::CommandModel::NewTab { workspace_id },
            ),
            None => self,
        }
    }

    /// Asking for a split of the focused pane, if the tab shown holds it.
    pub open spec fn splitting(self, direction: SplitDirection) -> Self {
        match (self.focused_pane, self.selected()) {
            (Some(pane_id), Some(workspace)) => if workspace.active_tab_shows(pane_id) {
                self.dispatching(crate::command::CommandModel::SplitPane { pane_id, direction })
            } else {
                self
            },
            _ => self,
        }
    }

    /// The selection lies in the terminal of a pane.
    pub open spec fn selection_is_in(self, pane_id: PaneId) -> bool {
        match (self.selection, self.selected()) {
            (Some(selection), Some(workspace)) => crate::model::terminal_in_tabs(
                workspace.tabs@,
                pane_id,
            ) == Some(selection.terminal_id),
            _ => false,
        }
    }

    /// After the server focused a pane. A selection in that pane is one that
    /// is being made, and stays.
    pub open spec fn pane_focused(self, pane_id: PaneId) -> Self {
        match self.selected() {
            Some(workspace) => if workspace.active_pane() == Some(pane_id) {
                let kept = self.selection_is_in(pane_id);
                let focused = crate::view::ViewModel {
                    focused_pane: Some(pane_id),
                    selection: if kept {
                        self.selection
                    } else {
                        None
                    },
                    ..self
                };
                (if self.focused_pane == Some(pane_id) && kept {
                    focused
                } else {
                    focused.without_ime()
                }).notified()
            } else {
                self
            },
            None => self,
        }
    }

    /// After the server closed a pane or a tab.
    pub open spec fn pane_gone(self) -> Self {
        self.focusing(
            self.snapshot.focus_in(self.selected_workspace, self.focused_pane),
        ).notified()
    }

    /// After the server activated a tab, if it is the one shown.
    pub open spec fn tab_activated(self, tab_id: TabId) -> Self {
        match self.shown_tab(tab_id) {
            Some(tab) => self.focusing(Some(tab.active_pane)).notified(),
            None => self,
        }
    }

    /// After something that the server did.
    pub open spec fn following(self, result: OperationResult) -> Self {
        match result {
            OperationResult::PaneCreated { pane_id } => self.pane_focused(pane_id),
            OperationResult::PaneFocused { pane_id } => self.pane_focused(pane_id),
            OperationResult::PaneClosed => self.pane_gone(),
            OperationResult::TabClosed => self.pane_gone(),
            OperationResult::TabActivated { tab_id } => self.tab_activated(tab_id),
            OperationResult::TabCreated { tab_id } => self.tab_activated(tab_id),
            OperationResult::WorkspaceActivated { workspace_id } => self.activated_locally(
                workspace_id,
            ).notified_if(self.activation_moves_focus(workspace_id)),
            OperationResult::WorkspaceCreated { .. } => self,
            OperationResult::Other => self,
        }
    }

    /// After a press on a tab.
    pub open spec fn tab_pressed(self, tab_id: TabId, active_pane: PaneId) -> Self {
        if self.has_transient_ui() {
            self.asking(crate::command::EffectModel::StopPropagation)
        } else {
            crate::view::ViewModel {
                press: crate::view::PressModel { split_drag: None, ..self.press },
                ..self
            }.asking(crate::command::EffectModel::FocusWindow).focusing(Some(active_pane)).dispatching(
                crate::command::CommandModel::ActivateTab { tab_id },
            ).asking(crate::command::EffectModel::StopPropagation)
        }
    }

    /// With the menu of something open.
    pub open spec fn opening_menu(self, target: ContextMenuTarget, position: PointerPosition) -> Self {
        crate::view::ViewModel {
            overlay: crate::view::OverlayModel {
                context_menu: Some(ContextMenuState { target, position }),
                ..self.overlay
            },
            ..self
        }.asking(crate::command::EffectModel::FocusWindow).asking(
            crate::command::EffectModel::StopPropagation,
        ).notified()
    }
}

impl WorkspaceView {
    fn show_workspace(&mut self, workspace_id: WorkspaceId, focused_pane: Option<PaneId>)
        ensures
            final(self)@ == old(self)@.showing(workspace_id, focused_pane),
    {
        self.selected_workspace = Some(workspace_id);
        self.focused_pane = focused_pane;
        self.strip.pending_tab = None;
        self.press.split_drag = None;
        self.selection = None;
        self.clear_ime();
    }

    fn focus_pane(&mut self, pane: Option<PaneId>)
        ensures
            final(self)@ == old(self)@.focusing(pane),
    {
        self.focused_pane = pane;
        self.selection = None;
        self.clear_ime();
    }

    /// Shows a workspace; tells whether the window changed.
    pub fn select_workspace_locally(&mut self, workspace_id: WorkspaceId) -> (changed: bool)
        ensures
            final(self)@ == old(self)@.selecting_workspace(workspace_id),
            changed == old(self)@.workspace_would_change(workspace_id),
            old(self)@.wf() ==> final(self)@.wf(),
    {
        let focused_pane: Option<PaneId> = match self.workspace_by_id(workspace_id) {
            Some(workspace) => workspace_active_pane(workspace),
            None => {
                return false;
            },
        };
        let changed = self.selected_workspace != Some(workspace_id) || self.focused_pane
            != focused_pane;
        self.show_workspace(workspace_id, focused_pane);
        if changed {
            self.notify();
        }
        changed
    }

    /// Asks for the tab at an index of the workspace shown.
    pub fn activate_tab_index(&mut self, index: usize)
        ensures
            final(self)@ == old(self)@.activating_tab(index as int),
            old(self)@.wf() ==> final(self)@.wf(),
    {
        let (tab_id, active_pane): (TabId, PaneId) = match self.selected_workspace_dump() {
            Some(workspace) => {
                if index < workspace.tabs.len() {
                    (workspace.tabs[index].id, workspace.tabs[index].active_pane)
                } else {
                    return;
                }
            },
            None => {
                return;
            },
        };
        self.strip.pending_tab = Some(tab_id);
        self.press.split_drag = None;
        self.focus_pane(Some(active_pane));
        self.dispatch(AppCommand::ActivateTab { tab_id });
    }

    /// Asks for the tab some steps on. While the tab that was asked for last
    /// is not active yet, steps go on from it.
    pub fn activate_relative_tab(&mut self, direction: isize)
        ensures
            final(self)@ == old(self)@.stepping_tabs(direction as int),
            old(self)@.wf() ==> final(self)@.wf(),
    {
        let next: usize = match self.selected_workspace_dump() {
            Some(workspace) => {
                if workspace.tabs.len() == 0 {
                    return;
                }
                let active: usize = match workspace.active_tab {
                    Some(tab_id) => match tab_index(workspace, tab_id) {
                        Some(index) => index,
                        None => 0,
                    },
                    None => 0,
                };
                let place: usize = match self.strip.pending_tab {
                    Some(tab_id) => match tab_index(workspace, tab_id) {
                        Some(index) => index,
                        None => active,
                    },
                    None => active,
                };
                wrapped_index(place, direction, workspace.tabs.len())
            },
            None => {
                return;
            },
        };
        self.activate_tab_index(next);
    }

    fn relative_workspace(&self, direction: isize) -> (workspace_id: Option<WorkspaceId>)
        ensures
            workspace_id == self@.next_workspace(direction as int),
    {
        let count: usize = shown_workspace_count(&self.snapshot);
        if count == 0 {
            return None;
        }
        let place: usize = match self.selected_workspace {
            Some(workspace_id) => match workspace_index(&self.snapshot, workspace_id) {
                Some(index) => index,
                None => 0,
            },
            None => 0,
        };
        Some(shown_workspace(&self.snapshot, wrapped_index(place, direction, count)).id)
    }

    /// Shows the workspace some steps on at once, and asks the server to
    /// activate it.
    pub fn activate_relative_workspace(&mut self, direction: isize)
        ensures
            final(self)@ == old(self)@.stepping_workspaces(direction as int),
            old(self)@.wf() ==> final(self)@.wf(),
    {
        if let Some(workspace_id) = self.relative_workspace(direction) {
            if self.apply_workspace_activated_locally(workspace_id) {
                self.notify();
            }
            self.dispatch(AppCommand::ActivateWorkspace { workspace_id });
        }
    }

    pub fn new_terminal_tab(&mut self)
        ensures
            final(self)@ == old(self)@.opening_tab(),
            old(self)@.wf() ==> final(self)@.wf(),
    {
        if let Some(workspace_id) = self.selected_workspace {
            self.dispatch(AppCommand::NewTab { workspace_id });
        }
    }

    pub fn split_active_pane(&mut self, direction: SplitDirection)
        ensures
            final(self)@ == old(self)@.splitting(direction),
            old(self)@.wf() ==> final(self)@.wf(),
    {
        if let (Some(pane_id), Some(workspace_id)) = (self.focused_pane, self.selected_workspace) {
            if self.workspace_contains_pane(workspace_id, pane_id) {
                self.dispatch(AppCommand::SplitPane { pane_id, direction });
            }
        }
    }

    /// Takes over the activation of a workspace before the server confirms
    /// it; tells whether the focus moved.
    pub fn apply_workspace_activated_locally(&mut self, workspace_id: WorkspaceId) -> (moved: bool)
        ensures
            final(self)@ == old(self)@.activated_locally(workspace_id),
            moved == old(self)@.activation_moves_focus(workspace_id),
            old(self)@.wf() ==> final(self)@.wf(),
    {
        if self.selected_workspace == Some(workspace_id) {
            return false;
        }
        let focused_pane: Option<PaneId> = match self.workspace_by_id(workspace_id) {
            Some(workspace) => workspace_active_pane(workspace),
            None => {
                return false;
            },
        };
        let moved = self.focused_pane != focused_pane;
        self.show_workspace(workspace_id, focused_pane);
        moved
    }

    fn apply_pane_focused(&mut self, pane_id: PaneId)
        ensures
            final(self)@ == old(self)@.pane_focused(pane_id),
    {
        let active: bool = match self.selected_workspace_dump() {
            Some(workspace) => workspace_active_pane(workspace) == Some(pane_id),
            None => false,
        };
        if !active {
            return;
        }
        let kept: bool = match self.selection {
            Some(selection) => self.terminal_id_for_pane(pane_id) == Some(selection.terminal_id),
            None => false,
        };
        let was_focused = self.focused_pane == Some(pane_id);
        self.focused_pane = Some(pane_id);
        if !kept {
            self.selection = None;
        }
        if !was_focused || !kept {
            self.clear_ime();
        }
        self.notify();
    }

    fn apply_pane_gone(&mut self)
        ensures
            final(self)@ == old(self)@.pane_gone(),
    {
        let focused_pane = focused_pane_for_workspace(
            &self.snapshot,
            self.selected_workspace,
            self.focused_pane,
        );
        self.focus_pane(focused_pane);
        self.notify();
    }

    fn apply_tab_activated(&mut self, tab_id: TabId)
        ensures
            final(self)@ == old(self)@.tab_activated(tab_id),
    {
        let active_pane: PaneId = match self.active_tab_by_id(tab_id) {
            Some(tab) => tab.active_pane,
            None => {
                return;
            },
        };
        self.focus_pane(Some(active_pane));
        self.notify();
    }

    /// Follows something that the server did.
    pub fn apply_operation_result(&mut self, result: OperationResult)
        ensures
            final(self)@ == old(self)@.following(result),
            old(self)@.wf() ==> final(self)@.wf(),
    {
        match result {
            OperationResult::PaneCreated { pane_id } => self.apply_pane_focused(pane_id),
            OperationResult::PaneFocused { pane_id } => self.apply_pane_focused(pane_id),
            OperationResult::PaneClosed => self.apply_pane_gone(),
            OperationResult::TabClosed => self.apply_pane_gone(),
            OperationResult::TabActivated { tab_id } => self.apply_tab_activated(tab_id),
            OperationResult::TabCreated { tab_id } => self.apply_tab_activated(tab_id),
            OperationResult::WorkspaceActivated { workspace_id } => {
                if self.apply_workspace_activated_locally(workspace_id) {
                    self.notify();
                }
            },
            OperationResult::WorkspaceCreated { .. } => {},
            OperationResult::Other => {},
        }
    }

    /// A press on a tab.
    pub fn press_tab(&mut self, tab_id: TabId, active_pane: PaneId)
        ensures
            final(self)@ == old(self)@.tab_pressed(tab_id, active_pane),
            old(self)@.wf() ==> final(self)@.wf(),
    {
        if self.has_transient_ui() {
            self.ask(Effect::StopPropagation);
            return;
        }
        self.ask(Effect::FocusWindow);
        self.press.split_drag = None;
        self.focus_pane(Some(active_pane));
        self.dispatch(AppCommand::ActivateTab { tab_id });
        self.ask(Effect::StopPropagation);
    }

    /// Opens the menu of something.
    pub fn open_context_menu(&mut self, target: ContextMenuTarget, position: PointerPosition)
        ensures
            final(self)@ == old(self)@.opening_menu(target, position),
            old(self)@.wf() ==> final(self)@.wf(),
    {
        self.overlay.context_menu = Some(ContextMenuState { target, position });
        self.ask(Effect::FocusWindow);
        self.ask(Effect::StopPropagation);
        self.notify();
    }
}

/// Activating the workspace that is shown changes nothing, so taking an
/// activation over early and once more when it is confirmed is as good as
/// once.
pub proof fn law_activation_is_idempotent(view: crate::view::ViewModel, workspace_id: WorkspaceId)
    ensures
        view.activated_locally(workspace_id).activated_locally(workspace_id)
            == view.activated_locally(workspace_id),
        !view.activated_locally(workspace_id).activation_moves_focus(workspace_id),
{
}

/// Quick steps add up: a step taken before the server has confirmed the one
/// before goes on from there.
pub proof fn law_quick_steps_add_up(
    view: crate::view::ViewModel,
    workspace: crate::model::WorkspaceDump,
    first: int,
    second: int,
)
    requires
        view.selected() == Some(workspace),
        workspace.tabs.len() > 0,
        forall|i: int, j: int|
            0 <= i < j < workspace.tabs.len() ==> (#[trigger] workspace.tabs@[i]).id != (
            #[trigger] workspace.tabs@[j]).id,
    ensures
        view.stepping_tabs(first).stepping_tabs(second).strip.pending_tab == view.stepping_tabs(
            first + second,
        ).strip.pending_tab,
{
    let count = workspace.tabs.len() as int;
    let place = view.tab_place(workspace);
    let middle = (place + first) % count;
    let stepped = view.stepping_tabs(first);
    assert(stepped.selected() == view.selected());
    let tab = workspace.tabs@[middle];
    assert(stepped.strip.pending_tab == Some(tab.id));
    let property = crate::model::tab_has_id(tab.id);
    assert forall|j: int| 0 <= j < middle implies !property(#[trigger] workspace.tabs@[j]) by {
        assert(workspace.tabs@[j].id != workspace.tabs@[middle].id);
    }
    crate::lookup::lemma_is_first(workspace.tabs@, property, middle);
    assert(stepped.tab_place(workspace) == middle);
    vstd::arithmetic::div_mod::lemma_add_mod_noop(place + first, second, count);
    vstd::arithmetic::div_mod::lemma_add_mod_noop(middle, second, count);
    vstd::arithmetic::div_mod::lemma_mod_twice(place + first, count);
    assert((middle + second) % count == (place + first + second) % count);
}

/// A selection that is being made in a pane survives the answer to the focus
/// command that its first press sent.
pub proof fn law_selection_survives_focusing(view: crate::view::ViewModel, pane_id: PaneId)
    requires
        view.selection_is_in(pane_id),
    ensures
        view.following(OperationResult::PaneFocused { pane_id }).selection == view.selection,
{
}

/// What a window shows is its own: nothing that the server does, short of
/// activating a workspace for it, moves it to another workspace.
pub proof fn law_only_activation_changes_the_workspace(
    view: crate::view::ViewModel,
    result: OperationResult,
)
    requires
        !(result is WorkspaceActivated),
    ensures
        view.following(result).selected_workspace == view.selected_workspace,
{
}

/// A tab is activated by its place: it is asked for on the server, its pane
/// takes the focus, and what was selected or composed is dropped. There is
/// nothing at other places.
pub proof fn law_tabs_are_activated_by_their_place(
    view: crate::view::ViewModel,
    workspace: crate::model::WorkspaceDump,
    connection: crate::view::WorkspaceConnection,
    index: int,
)
    requires
        view.selected() == Some(workspace),
        view.connection(view.active_connection) == Some(connection),
    ensures
        0 <= index < workspace.tabs.len() ==> {
            let after = view.activating_tab(index);
            let tab = workspace.tabs@[index];
            &&& after.strip.pending_tab == Some(tab.id)
            &&& after.focused_pane == Some(tab.active_pane)
            &&& after.selected_workspace == view.selected_workspace
            &&& after.selection is None
            &&& after.ime.terminal is None
            &&& after.press.split_drag is None
            &&& after.effects == view.effects.push(
                crate::command::EffectModel::Dispatch {
                    transport: connection.client,
                    connection_id: view.active_connection,
                    command: crate::command::CommandModel::ActivateTab { tab_id: tab.id },
                },
            )
        },
        !(0 <= index < workspace.tabs.len()) ==> view.activating_tab(index) == view,
{
}

/// A step leads from a tab to its neighbour, and from either end to the other.
/// It starts at the tab that was asked for last, or else at the active one.
pub proof fn law_tab_steps_go_round(
    view: crate::view::ViewModel,
    workspace: crate::model::WorkspaceDump,
    place: int,
)
    requires
        view.selected() == Some(workspace),
        0 <= place < workspace.tabs.len(),
        forall|j: int|
            0 <= j < place ==> (#[trigger] workspace.tabs@[j]).id != workspace.tabs@[place].id,
        view.strip.pending_tab == Some(workspace.tabs@[place].id) || (view.strip.pending_tab is None
            && workspace.active_tab == Some(workspace.tabs@[place].id)),
    ensures
        ({
            let count = workspace.tabs.len();
            let next = if place + 1 == count {
                0
            } else {
                place + 1
            };
            let previous = if place == 0 {
                count - 1
            } else {
                place - 1
            };
            &&& view.stepping_tabs(1) == view.activating_tab(next)
            &&& view.stepping_tabs(-1) == view.activating_tab(previous)
        }),
{
    let count = workspace.tabs.len() as int;
    crate::lookup::lemma_is_first(
        workspace.tabs@,
        crate::model::tab_has_id(workspace.tabs@[place].id),
        place,
    );
    if place + 1 == count {
        vstd::arithmetic::div_mod::lemma_mod_self_0(count);
    } else {
        vstd::arithmetic::div_mod::lemma_small_mod((place + 1) as nat, count as nat);
    }
    if place == 0 {
        vstd::arithmetic::div_mod::lemma_mod_add_multiples_vanish(-1, count);
        vstd::arithmetic::div_mod::lemma_small_mod((count - 1) as nat, count as nat);
    } else {
        vstd::arithmetic::div_mod::lemma_small_mod((place - 1) as nat, count as nat);
    }
}

/// Workspaces are stepped through in the same way; the one reached is shown at
/// once and activated on the server.
pub proof fn law_workspace_steps_go_round(
    view: crate::view::ViewModel,
    connection: crate::view::WorkspaceConnection,
    place: int,
)
    requires
        0 <= place < view.snapshot.shown().len(),
        forall|j: int|
            0 <= j < place ==> (#[trigger] view.snapshot.shown()[j]).id
                != view.snapshot.shown()[place].id,
        view.selected_workspace == Some(view.snapshot.shown()[place].id),
        view.connection(view.active_connection) == Some(connection),
    ensures
        ({
            let shown = view.snapshot.shown();
            let next = shown[if place + 1 == shown.len() {
                0
            } else {
                place + 1
            }].id;
            let previous = shown[if place == 0 {
                shown.len() - 1
            } else {
                place - 1
            }].id;
            let forth = view.stepping_workspaces(1);
            let back = view.stepping_workspaces(-1);
            &&& forth.selected_workspace == Some(next)
            &&& back.selected_workspace == Some(previous)
            &&& forth.effects.last() == crate::command::EffectModel::Dispatch {
                transport: connection.client,
                connection_id: view.active_connection,
                command: crate::command::CommandModel::ActivateWorkspace { workspace_id: next },
            }
            &&& back.effects.last() == crate::command::EffectModel::Dispatch {
                transport: connection.client,
                connection_id: view.active_connection,
                command: crate::command::CommandModel::ActivateWorkspace { workspace_id: previous },
            }
        }),
{
    let shown = view.snapshot.shown();
    let count = shown.len() as int;
    crate::lookup::lemma_is_first(
        shown,
        crate::model::workspace_has_id(shown[place].id),
        place,
    );
    let next = if place + 1 == count {
        0
    } else {
        place + 1
    };
    let previous = if place == 0 {
        count - 1
    } else {
        place - 1
    };
    if place + 1 == count {
        vstd::arithmetic::div_mod::lemma_mod_self_0(count);
    } else {
        vstd::arithmetic::div_mod::lemma_small_mod((place + 1) as nat, count as nat);
    }
    if place == 0 {
        vstd::arithmetic::div_mod::lemma_mod_add_multiples_vanish(-1, count);
        vstd::arithmetic::div_mod::lemma_small_mod((count - 1) as nat, count as nat);
    } else {
        vstd::arithmetic::div_mod::lemma_small_mod((place - 1) as nat, count as nat);
    }
    lemma_shown_workspaces_are_found(view, next);
    lemma_shown_workspaces_are_found(view, previous);
}

proof fn lemma_shown_workspaces_are_found(view: crate::view::ViewModel, index: int)
    requires
        0 <= index < view.snapshot.shown().len(),
    ensures
        view.workspace(view.snapshot.shown()[index].id) is Some,
{
    let shown = view.snapshot.shown();
    let property = crate::model::workspace_has_id(shown[index].id);
    crate::lookup::lemma_first_where(shown, property);
    if crate::lookup::first_where(shown, property) is None {
        assert(!property(shown[index]));
    }
}

/// A new tab is asked for in the selected workspace. A split is asked for where
/// the focused pane is shown, in the direction given.
pub proof fn law_new_panes_are_asked_for(
    view: crate::view::ViewModel,
    workspace: crate::model::WorkspaceDump,
    connection: crate::view::WorkspaceConnection,
    pane_id: PaneId,
    direction: SplitDirection,
)
    requires
        view.selected_workspace == Some(workspace.id),
        view.selected() == Some(workspace),
        view.focused_pane == Some(pane_id),
        view.connection(view.active_connection) == Some(connection),
    ensures
        view.opening_tab().effects == view.effects.push(
            crate::command::EffectModel::Dispatch {
                transport: connection.client,
                connection_id: view.active_connection,
                command: crate::command::CommandModel::NewTab { workspace_id: workspace.id },
            },
        ),
        workspace.active_tab_shows(pane_id) ==> view.splitting(direction).effects
            == view.effects.push(
            crate::command::EffectModel::Dispatch {
                transport: connection.client,
                connection_id: view.active_connection,
                command: crate::command::CommandModel::SplitPane { pane_id, direction },
            },
        ),
        !workspace.active_tab_shows(pane_id) ==> view.splitting(direction) == view,
        (crate::view::ViewModel { selected_workspace: None, ..view }).opening_tab().effects
            == view.effects,
        (crate::view::ViewModel { focused_pane: None, ..view }).splitting(direction).effects
            == view.effects,
{
}

/// What a server did moves the focus: to a pane that it focused, to the pane of
/// a tab that it activated, to a pane that is left where one was closed.
pub proof fn law_results_move_the_focus(
    view: crate::view::ViewModel,
    workspace: crate::model::WorkspaceDump,
    tab: crate::model::TabDump,
)
    requires
        view.selected() == Some(workspace),
        workspace.active_tab == Some(tab.id),
        workspace.tab_of(tab.id) == Some(tab),
    ensures
        view.following(OperationResult::PaneFocused { pane_id: tab.active_pane }).focused_pane
            == Some(tab.active_pane),
        view.following(OperationResult::PaneCreated { pane_id: tab.active_pane }).focused_pane
            == Some(tab.active_pane),
        view.following(OperationResult::TabActivated { tab_id: tab.id }).focused_pane == Some(
            tab.active_pane,
        ),
        view.following(OperationResult::TabCreated { tab_id: tab.id }).focused_pane == Some(
            tab.active_pane,
        ),
        view.following(OperationResult::PaneClosed).focused_pane == view.snapshot.focus_in(
            view.selected_workspace,
            view.focused_pane,
        ),
        view.following(OperationResult::TabClosed).focused_pane == view.snapshot.focus_in(
            view.selected_workspace,
            view.focused_pane,
        ),
        view.following(OperationResult::Other) == view,
        view.following(OperationResult::TabActivated { tab_id: tab.id }).effects.last()
            == crate::command::EffectModel::Notify,
        view.following(OperationResult::TabActivated { tab_id: tab.id }).selection is None,
{
}

/// Panes and tabs that are not active do not take the focus.
pub proof fn law_hidden_panes_take_no_focus(
    view: crate::view::ViewModel,
    workspace: crate::model::WorkspaceDump,
    pane_id: PaneId,
    tab_id: TabId,
)
    requires
        view.selected() == Some(workspace),
        workspace.active_pane() != Some(pane_id),
        workspace.active_tab != Some(tab_id),
    ensures
        view.following(OperationResult::PaneFocused { pane_id }) == view,
        view.following(OperationResult::TabActivated { tab_id }) == view,
{
}

/// Choosing a workspace shows it with the pane of its active tab; the window is
/// drawn again where that changes something.
pub proof fn law_chosen_workspaces_are_shown(
    view: crate::view::ViewModel,
    workspace: crate::model::WorkspaceDump,
)
    requires
        view.workspace(workspace.id) == Some(workspace),
    ensures
        ({
            let after = view.selecting_workspace(workspace.id);
            &&& after.selected_workspace == Some(workspace.id)
            &&& after.focused_pane == workspace.active_pane()
            &&& after.selection is None
            &&& after.ime.terminal is None
            &&& after.strip.pending_tab is None
            &&& after.press.split_drag is None
            &&& after.effects == (if view.selected_workspace != Some(workspace.id)
                || view.focused_pane != workspace.active_pane() {
                view.effects.push(crate::command::EffectModel::Notify)
            } else {
                view.effects
            })
        }),
{
}

/// A press on a tab focuses its pane and activates it; under an overlay it is
/// only kept from what lies below.
pub proof fn law_pressed_tabs_are_activated(
    view: crate::view::ViewModel,
    connection: crate::view::WorkspaceConnection,
    tab_id: TabId,
    active_pane: PaneId,
)
    requires
        view.connection(view.active_connection) == Some(connection),
    ensures
        !view.has_transient_ui() ==> {
            let after = view.tab_pressed(tab_id, active_pane);
            &&& after.focused_pane == Some(active_pane)
            &&& after.selection is None
            &&& after.effects == view.effects.push(crate::command::EffectModel::FocusWindow).push(
                crate::command::EffectModel::Dispatch {
                    transport: connection.client,
                    connection_id: view.active_connection,
                    command: crate::command::CommandModel::ActivateTab { tab_id },
                },
            ).push(crate::command::EffectModel::StopPropagation)
        },
        view.has_transient_ui() ==> view.tab_pressed(tab_id, active_pane) == (
        crate::view::ViewModel {
            effects: view.effects.push(crate::command::EffectModel::StopPropagation),
            ..view
        }),
{
}

/// A menu opens for its target, where the pointer is.
pub proof fn law_menus_open_at_the_pointer(
    view: crate::view::ViewModel,
    target: ContextMenuTarget,
    position: PointerPosition,
)
    ensures
        view.opening_menu(target, position).overlay.context_menu == Some(
            ContextMenuState { target, position },
        ),
        view.opening_menu(target, position).effects == view.effects.push(
            crate::command::EffectModel::FocusWindow,
        ).push(crate::command::EffectModel::StopPropagation).push(
            crate::command::EffectModel::Notify,
        ),
{
}

} // verus!
