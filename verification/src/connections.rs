//! The connections of a window and what is folded in its sidebar.

use crate::ids::ConnectionId;
use crate::ids::WorkspaceId;
use crate::model::focused_pane_for_workspace;
use crate::model::workspace_selection_after_snapshot;
use crate::tables::insert_pair;
use crate::tables::pairs_of;
use crate::tables::remove_pair;
use crate::view::find_connection;
use crate::view::ViewConfig;
use crate::view::WorkspaceConnection;
use crate::view::WorkspaceView;
use std::collections::BTreeMap;
use std::collections::BTreeSet;
use vstd::prelude::*;

verus! {

/// A set with a member put in if it was out and taken out if it was in.
pub open spec fn toggled<T>(members: Set<T>, member: T) -> Set<T> {
    if members.contains(member) {
        members.remove(member)
    } else {
        members.insert(member)
    }
}

/// The connections other than one.
pub open spec fn other_connections(
    connections: Seq<WorkspaceConnection>,
    id: ConnectionId,
) -> Seq<WorkspaceConnection> {
    connections.filter(|connection: WorkspaceConnection| connection.id != id)
}

/// Connections with one put in the place of its predecessor, or at the end.
pub open spec fn with_connection(
    connections: Seq<WorkspaceConnection>,
    connection: WorkspaceConnection,
) -> Seq<WorkspaceConnection> {
    match crate::lookup::first_where(
        connections,
        crate::view::connection_has_id(connection.id),
    ) {
        Some(index) => connections.update(index, connection),
        None => connections.push(connection),
    }
}

impl crate::view::ViewModel {
    /// Showing a connection, if there is one of that number that is not
    /// shown.
    pub open spec fn selecting_connection(self, id: ConnectionId) -> Self {
        match self.connection(id) {
            Some(connection) => if self.active_connection == id {
                self
            } else {
                self.projecting(connection).notified()
            },
            None => self,
        }
    }

    pub open spec fn installing_connection(self, connection: WorkspaceConnection) -> Self {
        crate::view::ViewModel {
            connections: with_connection(self.connections, connection),
            ..self
        }.notified()
    }

    /// Without the folded rows of a connection.
    pub open spec fn forgetting_connection(self, id: ConnectionId) -> Self {
        crate::view::ViewModel {
            connections: other_connections(self.connections, id),
            sidebar: crate::view::SidebarModel {
                collapsed_connections: self.sidebar.collapsed_connections.remove(id.raw),
                collapsed_workspaces: self.sidebar.collapsed_workspaces.filter(
                    |pair: (u64, u128)| pair.0 != id.raw,
                ),
                ..self.sidebar
            },
            ..self
        }
    }

    /// Without a dialog that lost its target.
    pub open spec fn without_stale_dialog(self) -> Self {
        if self.overlay.dialog is Some && !self.dialog_target_exists(self.overlay.dialog->0) {
            crate::view::ViewModel {
                overlay: crate::view::OverlayModel {
                    dialog: None,
                    field: self.overlay.field.cleared(),
                    ..self.overlay
                },
                ..self
            }
        } else {
            self
        }
    }

    /// Without a connection. A window that showed it shows the first one left.
    pub open spec fn removing_connection(self, id: ConnectionId) -> Self {
        let forgotten = self.forgetting_connection(id);
        let projected = if self.active_connection == id && forgotten.connections.len() > 0 {
            forgotten.projecting(forgotten.connections[0])
        } else {
            forgotten
        };
        crate::view::ViewModel {
            overlay: crate::view::OverlayModel { context_menu: None, ..projected.overlay },
            ..projected
        }.without_stale_dialog().notified()
    }

    pub open spec fn toggling_sidebar(self) -> Self {
        crate::view::ViewModel {
            sidebar: crate::view::SidebarModel {
                sidebar_collapsed: !self.sidebar.sidebar_collapsed,
                ..self.sidebar
            },
            ..self
        }.notified()
    }

    /// With a connection folded or unfolded, if there is one of that number.
    pub open spec fn toggling_connection(self, id: ConnectionId) -> Self {
        if self.connection(id) is None {
            self
        } else {
            crate::view::ViewModel {
                sidebar: crate::view::SidebarModel {
                    collapsed_connections: toggled(self.sidebar.collapsed_connections, id.raw),
                    ..self.sidebar
                },
                ..self
            }.notified()
        }
    }

    /// With a workspace folded or unfolded, if the connection has it.
    pub open spec fn toggling_workspace(
        self,
        connection_id: ConnectionId,
        workspace_id: WorkspaceId,
    ) -> Self {
        if self.workspace_in(connection_id, workspace_id) is None {
            self
        } else {
            crate::view::ViewModel {
                sidebar: crate::view::SidebarModel {
                    collapsed_workspaces: toggled(
                        self.sidebar.collapsed_workspaces,
                        (connection_id.raw, workspace_id.raw),
                    ),
                    ..self.sidebar
                },
                ..self
            }.notified()
        }
    }

    pub open spec fn configured(self, config: ViewConfig) -> Self {
        crate::view::ViewModel {
            config,
            sidebar: crate::view::SidebarModel {
                sidebar_width: config.sidebar_width,
                sidebar_collapsed: !config.sidebar_visible,
                ..self.sidebar
            },
            ..self
        }.notified()
    }
}

proof fn lemma_removal_keeps_the_others(
    connections: Seq<WorkspaceConnection>,
    id: ConnectionId,
    index: int,
)
    requires
        0 <= index < connections.len(),
        connections[index].id == id,
    ensures
        other_connections(connections.remove(index), id) == other_connections(connections, id),
{
    let property = |connection: WorkspaceConnection| connection.id != id;
    let before = connections.take(index);
    let removed = seq![connections[index]];
    let after = connections.skip(index + 1);
    assert(connections =~= before + removed + after);
    assert(connections.remove(index) =~= before + after);
    Seq::filter_distributes_over_add(before + removed, after, property);
    Seq::filter_distributes_over_add(before, removed, property);
    Seq::filter_distributes_over_add(before, after, property);
    assert(removed.filter(property) =~= Seq::empty()) by {
        reveal(Seq::filter);
        reveal_with_fuel(Seq::filter, 2);
    }
    assert(before.filter(property) + removed.filter(property) =~= before.filter(property));
}

proof fn lemma_nothing_to_remove(connections: Seq<WorkspaceConnection>, id: ConnectionId)
    requires
        forall|i: int| 0 <= i < connections.len() ==> (#[trigger] connections[i]).id != id,
    ensures
        other_connections(connections, id) == connections,
    decreases connections.len(),
{
    reveal(Seq::filter);
    if connections.len() > 0 {
        assert forall|i: int| 0 <= i < connections.len() - 1 implies (
        #[trigger] connections.drop_last()[i]).id != id by {
            assert(connections.drop_last()[i] == connections[i]);
        }
        lemma_nothing_to_remove(connections.drop_last(), id);
        assert(connections =~= connections.drop_last().push(connections.last()));
    } else {
        assert(connections =~= other_connections(connections, id));
    }
}

impl WorkspaceView {
    /// Shows another connection from the start.
    pub fn reset_active_connection_projection(&mut self, connection: WorkspaceConnection)
        ensures
            final(self)@ == old(self)@.projecting(connection),
            old(self)@.wf() ==> final(self)@.wf(),
    {
        self.active_connection = connection.id;
        self.client = connection.client;
        self.snapshot = connection.snapshot;
        self.selected_workspace = workspace_selection_after_snapshot(None, &self.snapshot);
        self.focused_pane = focused_pane_for_workspace(
            &self.snapshot,
            self.selected_workspace,
            self.snapshot.focused_pane,
        );
        self.scrolling.scroll_accumulators = BTreeMap::new();
        self.scrolling.active_trackpad_scrolls = BTreeSet::new();
        self.scrolling.pending_viewport_requests = BTreeMap::new();
        self.scrolling.mouse_scroll_animations = BTreeMap::new();
        self.strip.pending_tab = None;
        self.strip.last_revealed_tab = None;
        self.press.split_drag = None;
        self.selection = None;
        self.clear_ime();
        self.ask(crate::command::Effect::ClearRenderCaches);
    }

    /// Shows another connection; tells whether the window changed.
    pub fn select_connection_locally(&mut self, connection_id: ConnectionId) -> (changed: bool)
        ensures
            final(self)@ == old(self)@.selecting_connection(connection_id),
            changed == (old(self)@.active_connection != connection_id && old(self)@.connection(
                connection_id,
            ) is Some),
            old(self)@.wf() ==> final(self)@.wf(),
    {
        if self.active_connection == connection_id {
            return false;
        }
        let connection: WorkspaceConnection = match self.connection_by_id(connection_id) {
            Some(connection) => connection.copy(),
            None => {
                return false;
            },
        };
        self.reset_active_connection_projection(connection);
        self.notify();
        true
    }

    /// Puts a connection in the place of its predecessor, or at the end.
    pub fn install_connection(&mut self, connection: WorkspaceConnection)
        ensures
            final(self)@ == old(self)@.installing_connection(connection),
            old(self)@.wf() ==> final(self)@.wf(),
    {
        match find_connection(&self.connections, connection.id) {
            Some(index) => {
                self.connections.set(index, connection);
            },
            None => {
                self.connections.push(connection);
            },
        }
        self.notify();
    }

    fn forget_connection(&mut self, connection_id: ConnectionId)
        ensures
            final(self)@ == old(self)@.forgetting_connection(connection_id),
    {
        let ghost before = self@;
        let mut i: usize = 0;
        while i < self.connections.len()
            invariant
                i <= self.connections.len(),
                self@ == (crate::view::ViewModel { connections: self.connections@, ..before }),
                other_connections(self.connections@, connection_id) == other_connections(
                    before.connections,
                    connection_id,
                ),
                forall|j: int| 0 <= j < i ==> (#[trigger] self.connections@[j]).id != connection_id,
            decreases self.connections.len() - i,
        {
            if self.connections[i].id == connection_id {
                proof {
                    lemma_removal_keeps_the_others(self.connections@, connection_id, i as int);
                }
                self.connections.remove(i);
            } else {
                i += 1;
            }
        }
        proof {
            lemma_nothing_to_remove(self.connections@, connection_id);
        }
        self.sidebar.collapsed_connections.remove(&connection_id.raw);
        let pairs = pairs_of(&self.sidebar.collapsed_workspaces);
        let ghost folded = before.sidebar.collapsed_workspaces;
        let mut k: usize = 0;
        while k < pairs.len()
            invariant
                k <= pairs.len(),
                self@ == (crate::view::ViewModel {
                    connections: other_connections(before.connections, connection_id),
                    sidebar: crate::view::SidebarModel {
                        collapsed_connections: before.sidebar.collapsed_connections.remove(connection_id.raw),
                        collapsed_workspaces: self.sidebar.collapsed_workspaces@,
                        ..before.sidebar
                    },
                    ..before
                }),
                folded == before.sidebar.collapsed_workspaces,
                pairs@.to_set() == folded,
                forall|pair: (u64, u128)| #[trigger]
                    self.sidebar.collapsed_workspaces@.contains(pair) ==> folded.contains(pair),
                forall|pair: (u64, u128)|
                    folded.contains(pair) && pair.0 != connection_id.raw
                        ==> #[trigger] self.sidebar.collapsed_workspaces@.contains(pair),
                forall|i: int|
                    0 <= i < k && (#[trigger] pairs@[i]).0 == connection_id.raw
                        ==> !self.sidebar.collapsed_workspaces@.contains(pairs@[i]),
            decreases pairs.len() - k,
        {
            let pair = pairs[k];
            if pair.0 == connection_id.raw {
                remove_pair(&mut self.sidebar.collapsed_workspaces, pair);
            }
            k += 1;
        }
        proof {
            assert forall|pair: (u64, u128)| folded.contains(pair) implies #[trigger] pairs@.contains(
                pair,
            ) by {
                assert(pairs@.to_set().contains(pair));
            }
            assert(self.sidebar.collapsed_workspaces@ =~= folded.filter(
                |pair: (u64, u128)| pair.0 != connection_id.raw,
            )) by {
                assert forall|pair: (u64, u128)| #[trigger]
                    self.sidebar.collapsed_workspaces@.contains(pair) implies pair.0
                    != connection_id.raw by {
                    assert(folded.contains(pair));
                    assert(pairs@.contains(pair));
                }
            }
        }
    }

    fn close_stale_dialog(&mut self)
        ensures
            final(self)@ == old(self)@.without_stale_dialog(),
            old(self)@.wf() ==> final(self)@.wf(),
    {
        if let Some(dialog) = self.overlay.dialog {
            if !self.dialog_target_exists(dialog) {
                self.overlay.dialog = None;
                self.overlay.field.clear();
            }
        }
    }

    /// Drops a connection. A window that showed it shows the first one left.
    pub fn remove_connection(&mut self, connection_id: ConnectionId)
        ensures
            final(self)@ == old(self)@.removing_connection(connection_id),
            old(self)@.wf() ==> final(self)@.wf(),
    {
        self.forget_connection(connection_id);
        if self.active_connection == connection_id && self.connections.len() > 0 {
            let first = self.connections[0].copy();
            self.reset_active_connection_projection(first);
        }
        self.overlay.context_menu = None;
        self.close_stale_dialog();
        self.notify();
    }

    pub fn toggle_sidebar(&mut self)
        ensures
            final(self)@ == old(self)@.toggling_sidebar(),
            old(self)@.wf() ==> final(self)@.wf(),
    {
        self.sidebar.sidebar_collapsed = !self.sidebar.sidebar_collapsed;
        self.notify();
    }

    pub fn toggle_connection_collapsed(&mut self, connection_id: ConnectionId)
        ensures
            final(self)@ == old(self)@.toggling_connection(connection_id),
            old(self)@.wf() ==> final(self)@.wf(),
    {
        if self.connection_by_id(connection_id).is_none() {
            return;
        }
        if !self.sidebar.collapsed_connections.remove(&connection_id.raw) {
            self.sidebar.collapsed_connections.insert(connection_id.raw);
        }
        self.notify();
    }

    pub fn toggle_workspace_collapsed(
        &mut self,
        connection_id: ConnectionId,
        workspace_id: WorkspaceId,
    )
        ensures
            final(self)@ == old(self)@.toggling_workspace(connection_id, workspace_id),
            old(self)@.wf() ==> final(self)@.wf(),
    {
        if self.workspace_by_id_in(connection_id, workspace_id).is_none() {
            return;
        }
        let key = (connection_id.raw, workspace_id.raw);
        if !remove_pair(&mut self.sidebar.collapsed_workspaces, key) {
            insert_pair(&mut self.sidebar.collapsed_workspaces, key);
        }
        self.notify();
    }

    /// Takes over new settings.
    pub fn apply_config(&mut self, config: ViewConfig)
        ensures
            final(self)@ == old(self)@.configured(config),
            old(self)@.wf() ==> final(self)@.wf(),
    {
        self.sidebar.sidebar_width = config.sidebar_width;
        self.sidebar.sidebar_collapsed = !config.sidebar_visible;
        self.config = config;
        self.notify();
    }
}

/// Folding twice unfolds: everything but the request to draw is as before.
pub proof fn law_folding_twice_changes_nothing(
    view: crate::view::ViewModel,
    connection_id: ConnectionId,
    workspace_id: WorkspaceId,
)
    ensures
        ({
            let twice = view.toggling_sidebar().toggling_sidebar();
            twice == crate::view::ViewModel { effects: twice.effects, ..view }
        }),
        ({
            let twice = view.toggling_connection(connection_id).toggling_connection(connection_id);
            twice == crate::view::ViewModel { effects: twice.effects, ..view }
        }),
        ({
            let twice = view.toggling_workspace(connection_id, workspace_id).toggling_workspace(
                connection_id,
                workspace_id,
            );
            twice == crate::view::ViewModel { effects: twice.effects, ..view }
        }),
{
    let once = view.toggling_connection(connection_id);
    assert(once.connection(connection_id) == view.connection(connection_id));
    assert(once.toggling_connection(connection_id).sidebar.collapsed_connections
        =~= view.sidebar.collapsed_connections);
    let folded = view.toggling_workspace(connection_id, workspace_id);
    assert(folded.workspace_in(connection_id, workspace_id) == view.workspace_in(
        connection_id,
        workspace_id,
    ));
    assert(folded.toggling_workspace(connection_id, workspace_id).sidebar.collapsed_workspaces
        =~= view.sidebar.collapsed_workspaces);
}

/// A connection that is removed is gone, with all that was folded under it,
/// and the others stay in their order. The window never keeps showing it while
/// another is left.
pub proof fn law_removed_connections_are_gone(view: crate::view::ViewModel, id: ConnectionId)
    ensures
        ({
            let after = view.removing_connection(id);
            &&& after.connections == other_connections(view.connections, id)
            &&& after.connection(id) is None
            &&& !after.sidebar.collapsed_connections.contains(id.raw)
            &&& forall|pair: (u64, u128)| #[trigger]
                after.sidebar.collapsed_workspaces.contains(pair) ==> pair.0 != id.raw
            &&& after.connections.len() > 0 ==> after.active_connection != id
        }),
{
    let property = |connection: WorkspaceConnection| connection.id != id;
    let left = other_connections(view.connections, id);
    assert forall|i: int| 0 <= i < left.len() implies !(crate::view::connection_has_id(id))(
        #[trigger] left[i],
    ) by {
        view.connections.lemma_filter_pred(property, i);
    }
    crate::lookup::lemma_none_is_first(left, crate::view::connection_has_id(id));
}

/// What was installed is found again, and nothing else changed its place.
pub proof fn law_installed_connections_are_found(
    view: crate::view::ViewModel,
    connection: WorkspaceConnection,
    other: ConnectionId,
)
    ensures
        view.installing_connection(connection).connection(connection.id) == Some(connection),
        other != connection.id ==> view.installing_connection(connection).connection(other)
            == view.connection(other),
{
    let property = crate::view::connection_has_id(connection.id);
    let wanted = crate::view::connection_has_id(other);
    let before = view.connections;
    let after = with_connection(before, connection);
    crate::lookup::lemma_first_where(before, property);
    crate::lookup::lemma_first_where(before, wanted);
    let place = match crate::lookup::first_where(before, property) {
        Some(index) => index,
        None => before.len() as int,
    };
    assert forall|j: int| 0 <= j < place implies !property(#[trigger] after[j]) by {
        assert(after[j] == before[j]);
    }
    crate::lookup::lemma_is_first(after, property, place);
    if other != connection.id {
        match crate::lookup::first_where(before, wanted) {
            Some(found) => {
                assert(after[found] == before[found]);
                assert forall|j: int| 0 <= j < found implies !wanted(#[trigger] after[j]) by {
                    assert(after[j] == before[j] || j == place);
                }
                crate::lookup::lemma_is_first(after, wanted, found);
            },
            None => {
                assert forall|j: int| 0 <= j < after.len() implies !wanted(
                    #[trigger] after[j],
                ) by {
                    assert(j == place || after[j] == before[j]);
                }
                crate::lookup::lemma_none_is_first(after, wanted);
            },
        }
    }
}

/// Turning to a connection shows it and draws the window; turning to the active
/// one or to none that is there changes nothing.
pub proof fn law_connections_are_turned_to(
    view: crate::view::ViewModel,
    connection: WorkspaceConnection,
)
    requires
        view.connection(connection.id) == Some(connection),
    ensures
        view.active_connection != connection.id ==> {
            let after = view.selecting_connection(connection.id);
            &&& after.active_connection == connection.id
            &&& after.snapshot == *connection.snapshot
            &&& after.effects == view.effects.push(
                crate::command::EffectModel::ClearRenderCaches,
            ).push(crate::command::EffectModel::Notify)
        },
        view.active_connection == connection.id ==> view.selecting_connection(connection.id)
            == view,
{
}

/// A connection that was removed while it was active gives way to the first
/// that is left; any other leaves what is shown.
pub proof fn law_removed_connections_give_way(view: crate::view::ViewModel, id: ConnectionId)
    ensures
        ({
            let left = view.connections.filter(|connection: WorkspaceConnection| connection.id != id);
            let after = view.removing_connection(id);
            &&& after.connections == left
            &&& after.overlay.context_menu is None
            &&& after.effects.last() == crate::command::EffectModel::Notify
            &&& view.active_connection == id && left.len() > 0 ==> after.active_connection
                == left[0].id && after.snapshot == *left[0].snapshot
            &&& view.active_connection != id ==> after.active_connection == view.active_connection
                && after.snapshot == view.snapshot && after.selected_workspace
                == view.selected_workspace && after.focused_pane == view.focused_pane
            &&& !after.sidebar.collapsed_connections.contains(id.raw)
        }),
{
}

/// Folding a connection or a workspace folds it alone, and again unfolds it.
pub proof fn law_folding_folds_one(
    view: crate::view::ViewModel,
    connection: WorkspaceConnection,
    workspace_id: WorkspaceId,
    other: u64,
    pair: (u64, u128),
)
    requires
        view.connection(connection.id) == Some(connection),
        connection.snapshot.workspace_of(workspace_id) is Some,
    ensures
        ({
            let after = view.toggling_connection(connection.id).sidebar.collapsed_connections;
            let before = view.sidebar.collapsed_connections;
            after.contains(other) == (if other == connection.id.raw {
                !before.contains(other)
            } else {
                before.contains(other)
            })
        }),
        ({
            let after = view.toggling_workspace(
                connection.id,
                workspace_id,
            ).sidebar.collapsed_workspaces;
            let before = view.sidebar.collapsed_workspaces;
            after.contains(pair) == (if pair == (connection.id.raw, workspace_id.raw) {
                !before.contains(pair)
            } else {
                before.contains(pair)
            })
        }),
        view.toggling_sidebar().sidebar.sidebar_collapsed == !view.sidebar.sidebar_collapsed,
        view.toggling_sidebar().effects == view.effects.push(crate::command::EffectModel::Notify),
{
}

/// A new configuration takes effect at once.
pub proof fn law_configurations_take_effect(view: crate::view::ViewModel, config: ViewConfig)
    ensures
        view.configured(config).config == config,
        view.configured(config).sidebar.sidebar_width == config.sidebar_width,
        view.configured(config).sidebar.sidebar_collapsed == !config.sidebar_visible,
        view.configured(config).effects == view.effects.push(crate::command::EffectModel::Notify),
{
}

/// Installing a connection leaves the others where they are; a new one comes
/// last. Removing one leaves the folds of the others.
pub proof fn law_other_connections_are_left_alone(
    view: crate::view::ViewModel,
    connection: WorkspaceConnection,
    index: int,
    pair: (u64, u128),
    other: u64,
)
    requires
        0 <= index < view.connections.len(),
    ensures
        view.connections[index].id != connection.id ==> view.installing_connection(
            connection,
        ).connections[index] == view.connections[index],
        view.connection(connection.id) is None ==> view.installing_connection(
            connection,
        ).connections == view.connections.push(connection),
        view.connection(connection.id) is Some ==> view.installing_connection(
            connection,
        ).connections.len() == view.connections.len(),
        ({
            let after = view.forgetting_connection(connection.id).sidebar;
            &&& after.collapsed_workspaces.contains(pair)
                <==> view.sidebar.collapsed_workspaces.contains(pair) && pair.0 != connection.id.raw
            &&& after.collapsed_connections.contains(other)
                <==> view.sidebar.collapsed_connections.contains(other) && other
                != connection.id.raw
        }),
{
    crate::lookup::lemma_first_where(
        view.connections,
        crate::view::connection_has_id(connection.id),
    );
}

} // verus!
