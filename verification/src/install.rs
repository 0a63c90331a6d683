//! Taking over the state of a server.

use crate::command::Effect;
use crate::command::OperationResult;
use crate::ids::ConnectionId;
use crate::ids::TerminalId;
use crate::ids::WorkspaceId;
use crate::model::focused_pane_for_workspace;
use crate::model::tab_index;
use crate::model::terminal_projection_in_snapshot;
use crate::model::workspace_exists_in_snapshot;
use crate::model::workspace_selection_after_snapshot;
use crate::model::ModelSnapshot;
use crate::offset::RowOffset;
use crate::scroll::reconcile_visual_scroll;
use crate::scroll::TerminalScrollState;
use crate::tables::drop_keys;
use crate::tables::keys_of;
use crate::tables::pairs_of;
use crate::tables::remove_pair;
use crate::terminal::share;
use crate::terminal::TerminalSnapshot;
use crate::view::find_connection;
use crate::view::WorkspaceConnection;
use crate::view::WorkspaceView;
use std::collections::BTreeMap;
use std::collections::BTreeSet;
use std::sync::Arc;
use vstd::prelude::*;

verus! {

/// Connections with the state of one replaced.
pub open spec fn with_state(
    connections: Seq<WorkspaceConnection>,
    id: ConnectionId,
    snapshot: Arc<ModelSnapshot>,
) -> Seq<WorkspaceConnection> {
    match crate::lookup::first_where(connections, crate::view::connection_has_id(id)) {
        Some(index) => connections.update(
            index,
            WorkspaceConnection { snapshot, ..connections[index] },
        ),
        None => connections,
    }
}

/// A position beyond an end of the history that a grid shows.
pub open spec fn is_beyond(snapshot: TerminalSnapshot, position: RowOffset) -> bool {
    ||| snapshot.rows_before.len() == 0 && position.exceeds(snapshot.viewport_position as int)
    ||| snapshot.rows_after.len() == 0 && position.falls_short_of(
        snapshot.viewport_position as int,
    )
}

/// The distance of a picture after its grid moved; the present one where no
/// other is given.
pub open spec fn rebased_offset(
    rebased: Map<u128, RowOffset>,
    key: u128,
    state: TerminalScrollState,
) -> RowOffset {
    if rebased.contains_key(key) {
        rebased[key]
    } else {
        state.visual_unacked_rows
    }
}

impl crate::view::ViewModel {
    /// With the state of the server that is shown replaced. What the window
    /// shows and what is focused stays where it can.
    #[verifier::opaque]
    pub open spec fn taking(self, snapshot: Arc<ModelSnapshot>) -> Self {
        let selected = snapshot.selection_after(self.selected_workspace);
        crate::view::ViewModel {
            connections: with_state(self.connections, self.active_connection, snapshot),
            snapshot: *snapshot,
            selection: if self.selection is Some && snapshot.projection_of(
                self.selection->0.terminal_id,
            ) is None {
                None
            } else {
                self.selection
            },
            selected_workspace: selected,
            focused_pane: snapshot.focus_in(selected, self.focused_pane),
            sidebar: crate::view::SidebarModel {
                collapsed_workspaces: self.sidebar.collapsed_workspaces.filter(
                    |pair: (u64, u128)|
                        pair.0 != self.active_connection.raw || snapshot.has_workspace(
                            WorkspaceId { raw: pair.1 },
                        ),
                ),
                ..self.sidebar
            },
            ..self
        }
    }

    /// Without a divider under drag whose tab is not shown.
    #[verifier::opaque]
    pub open spec fn without_hidden_split(self) -> Self {
        if self.press.split_drag is Some && self.active_tab() != Some(self.press.split_drag->0.tab_id) {
            crate::view::ViewModel {
                press: crate::view::PressModel { split_drag: None, ..self.press },
                ..self
            }
        } else {
            self
        }
    }

    /// The workspace shown and how many tabs it has.
    pub open spec fn tab_strip(self) -> (Option<WorkspaceId>, nat) {
        (
            self.selected_workspace,
            match self.selected() {
                Some(workspace) => workspace.tabs.len() as nat,
                None => 0,
            },
        )
    }

    /// With the tab strip drawn again where it may have changed.
    #[verifier::opaque]
    pub open spec fn noting_tabs(self, moved: bool) -> Self {
        if self.tab_strip() != self.strip.last_tab_strip_signature || moved {
            crate::view::ViewModel {
                strip: crate::view::StripModel {
                    last_tab_strip_signature: self.tab_strip(),
                    ..self.strip
                },
                ..self
            }.notified()
        } else {
            self
        }
    }

    /// The item of the tab strip to bring into view for a tab. Behind the last
    /// tab stands the button for a new one, which comes into view with it.
    pub open spec fn revealed_item(self, tab: Option<crate::ids::TabId>) -> Option<int> {
        match (tab, self.selected()) {
            (Some(tab_id), Some(workspace)) => match workspace.tab_index(tab_id) {
                Some(index) => Some(
                    if index + 1 == workspace.tabs.len() {
                        index + 1
                    } else {
                        index
                    },
                ),
                None => None,
            },
            _ => None,
        }
    }

    /// With the active tab brought into view, once after it became active.
    #[verifier::opaque]
    pub open spec fn revealing_tab(self) -> Self {
        let active = self.active_tab();
        if active == self.strip.last_revealed_tab {
            self
        } else {
            let noted = crate::view::ViewModel {
                strip: crate::view::StripModel { last_revealed_tab: active, ..self.strip },
                ..self
            };
            match self.revealed_item(active) {
                Some(index) => noted.asking(
                    crate::command::EffectModel::ScrollToTab { index: index as usize },
                ).notified(),
                None => noted,
            }
        }
    }

    /// Without a tab that was asked for and is active now, or is gone.
    #[verifier::opaque]
    pub open spec fn settling_pending_tab(self) -> Self {
        match self.strip.pending_tab {
            Some(tab_id) => if self.active_tab() == Some(tab_id) || self.tab(tab_id) is None {
                crate::view::ViewModel {
                    strip: crate::view::StripModel { pending_tab: None, ..self.strip },
                    ..self
                }
            } else {
                self
            },
            None => self,
        }
    }

    /// A terminal is still projected, under its number.
    pub open spec fn projects(self, key: u128) -> bool {
        match self.snapshot.projection_of(TerminalId { raw: key }) {
            Some(projection) => projection.terminal_id.raw == key,
            None => false,
        }
    }

    /// The scroll state of a terminal brought up to its grid.
    pub open spec fn scroll_state_after(self, key: u128, rebased: Map<u128, RowOffset>) -> TerminalScrollState {
        let state = self.scrolling.scroll_accumulators[key];
        if self.terminal_snapshots.contains_key(key) {
            state.reconciled(
                *self.terminal_snapshots[key],
                rebased_offset(rebased, key, state),
            )
        } else {
            state
        }
    }

    /// With the scroll states of terminals that are gone dropped and the
    /// others brought up to their grids.
    #[verifier::opaque]
    pub open spec fn reconciling(self, rebased: Map<u128, RowOffset>) -> Self {
        crate::view::ViewModel {
            scrolling: crate::view::ScrollingModel {
                scroll_accumulators: Map::new(
                    |key: u128| self.scrolling.scroll_accumulators.contains_key(key) && self.projects(key),
                    |key: u128| self.scroll_state_after(key, rebased),
                ),
                ..self.scrolling
            },
            ..self
        }
    }

    /// The animation of a terminal still leads somewhere.
    pub open spec fn animation_leads_on(self, key: u128) -> bool {
        self.terminal_snapshots.contains_key(key) && !is_beyond(
            *self.terminal_snapshots[key],
            self.scrolling.mouse_scroll_animations[key].target_position,
        )
    }

    /// The position asked for a terminal still exists.
    pub open spec fn request_leads_on(self, key: u128) -> bool {
        self.terminal_snapshots.contains_key(key) && !is_beyond(
            *self.terminal_snapshots[key],
            RowOffset::Rows(self.scrolling.pending_viewport_requests[key].1),
        )
    }

    /// Without movements beyond the ends of the history.
    #[verifier::opaque]
    pub open spec fn without_stale_movements(self) -> Self {
        crate::view::ViewModel {
            scrolling: crate::view::ScrollingModel {
                mouse_scroll_animations: self.scrolling.mouse_scroll_animations.filter_keys(
                    |key: u128| self.animation_leads_on(key),
                ),
                pending_viewport_requests: self.scrolling.pending_viewport_requests.filter_keys(
                    |key: u128| self.request_leads_on(key),
                ),
                ..self.scrolling
            },
            ..self
        }
    }

    /// Without anything on top of the window that lost its target.
    #[verifier::opaque]
    pub open spec fn without_stale_overlays(self) -> Self {
        let rename_is_stale = self.overlay.rename_target is Some && !self.rename_target_exists(
            self.overlay.rename_target->0,
        );
        crate::view::ViewModel {
            overlay: crate::view::OverlayModel {
                context_menu: if self.overlay.context_menu is Some && !self.menu_target_exists(
                    self.overlay.context_menu->0.target,
                ) {
                    None
                } else {
                    self.overlay.context_menu
                },
                rename_target: if rename_is_stale {
                    None
                } else {
                    self.overlay.rename_target
                },
                rename_value: if rename_is_stale {
                    Seq::empty()
                } else {
                    self.overlay.rename_value
                },
                dialog: if self.overlay.dialog is Some && !self.dialog_target_exists(self.overlay.dialog->0) {
                    None
                } else {
                    self.overlay.dialog
                },
                ..self.overlay
            },
            ..self
        }
    }

    /// Without a composition in a terminal that lost the focus.
    #[verifier::opaque]
    pub open spec fn without_stale_ime(self) -> Self {
        if self.ime.terminal is Some && self.ime.terminal != self.active_terminal() {
            self.without_ime()
        } else {
            self
        }
    }

    /// Taking a state over moves the window or the focus.
    pub open spec fn moves_with(self, snapshot: ModelSnapshot) -> bool {
        let selected = snapshot.selection_after(self.selected_workspace);
        selected != self.selected_workspace || snapshot.focus_in(selected, self.focused_pane)
            != self.focused_pane
    }

    /// With a newer state of the server that is shown, as far as the tabs go.
    pub open spec fn renewed_tabs(self, snapshot: Arc<ModelSnapshot>) -> Self {
        self.taking(snapshot).without_hidden_split().noting_tabs(
            self.moves_with(*snapshot),
        ).revealing_tab()
    }

    /// With a newer state of the server that is shown.
    pub open spec fn renewed(self, snapshot: Arc<ModelSnapshot>, rebased: Map<u128, RowOffset>) -> Self {
        self.renewed_tabs(snapshot).settling_pending_tab().reconciling(
            rebased,
        ).without_stale_movements().without_stale_overlays().without_stale_ime().notified()
    }

    /// With a state of the server that is shown. One that is not newer than
    /// the present one changes nothing.
    pub open spec fn installing(
        self,
        snapshot: Arc<ModelSnapshot>,
        rebased: Map<u128, RowOffset>,
    ) -> Self {
        if snapshot.state_revision <= self.snapshot.state_revision {
            self
        } else {
            self.renewed(snapshot, rebased)
        }
    }

    /// With a state of a server that is not shown.
    pub open spec fn storing(self, id: ConnectionId, snapshot: Arc<ModelSnapshot>) -> Self {
        match self.connection(id) {
            Some(connection) => if snapshot.state_revision > connection.snapshot.state_revision {
                crate::view::ViewModel {
                    connections: with_state(self.connections, id, snapshot),
                    ..self
                }.notified()
            } else {
                self
            },
            None => self,
        }
    }

    /// With a state of one of the servers.
    pub open spec fn installing_for(
        self,
        id: ConnectionId,
        snapshot: Arc<ModelSnapshot>,
        rebased: Map<u128, RowOffset>,
    ) -> Self {
        if id == self.active_connection {
            self.installing(snapshot, rebased)
        } else {
            self.storing(id, snapshot)
        }
    }

    /// With a command done: the state after it and what it did.
    pub open spec fn command_done(
        self,
        id: ConnectionId,
        snapshot: Arc<ModelSnapshot>,
        rebased: Map<u128, RowOffset>,
        result: OperationResult,
    ) -> Self {
        if id == self.active_connection {
            self.installing(snapshot, rebased).following(result)
        } else {
            self.storing(id, snapshot)
        }
    }

    /// With a workspace created: it is shown.
    pub open spec fn workspace_created(
        self,
        snapshot: Arc<ModelSnapshot>,
        rebased: Map<u128, RowOffset>,
        workspace_id: WorkspaceId,
    ) -> Self {
        self.installing(snapshot, rebased).selecting_workspace(workspace_id)
    }
}

fn set_state(
    connections: &mut Vec<WorkspaceConnection>,
    id: ConnectionId,
    snapshot: &Arc<ModelSnapshot>,
)
    ensures
        final(connections)@ == with_state(old(connections)@, id, *snapshot),
{
    if let Some(index) = find_connection(connections, id) {
        let renewed = WorkspaceConnection {
            id: connections[index].id,
            title: connections[index].title.clone(),
            kind: connections[index].kind,
            client: connections[index].client,
            snapshot: share(snapshot),
        };
        connections.set(index, renewed);
    }
}

/// Unfolds the workspaces of a server that are gone.
fn forget_missing_workspaces(
    folded: &mut BTreeSet<(u64, u128)>,
    connection: u64,
    snapshot: &ModelSnapshot,
)
    ensures
        final(folded)@ == old(folded)@.filter(
            |pair: (u64, u128)|
                pair.0 != connection || snapshot.has_workspace(WorkspaceId { raw: pair.1 }),
        ),
{
    let ghost before = folded@;
    let ghost stays = |pair: (u64, u128)|
        pair.0 != connection || snapshot.has_workspace(WorkspaceId { raw: pair.1 });
    let pairs = pairs_of(folded);
    let mut k: usize = 0;
    while k < pairs.len()
        invariant
            k <= pairs.len(),
            pairs@.to_set() == before,
            stays == (|pair: (u64, u128)|
                pair.0 != connection || snapshot.has_workspace(WorkspaceId { raw: pair.1 })),
            forall|pair: (u64, u128)| #[trigger] folded@.contains(pair) ==> before.contains(pair),
            forall|pair: (u64, u128)|
                before.contains(pair) && stays(pair) ==> #[trigger] folded@.contains(pair),
            forall|i: int|
                0 <= i < k && !stays(#[trigger] pairs@[i]) ==> !folded@.contains(pairs@[i]),
        decreases pairs.len() - k,
    {
        let pair = pairs[k];
        if pair.0 == connection && !workspace_exists_in_snapshot(
            snapshot,
            WorkspaceId { raw: pair.1 },
        ) {
            remove_pair(folded, pair);
        }
        k += 1;
    }
    proof {
        assert forall|pair: (u64, u128)| #[trigger] folded@.contains(pair) implies stays(pair) by {
            assert(pairs@.to_set().contains(pair));
            assert(pairs@.contains(pair));
        }
        assert(folded@ =~= before.filter(stays));
    }
}

impl WorkspaceView {
    fn take_snapshot(&mut self, snapshot: Arc<ModelSnapshot>)
        ensures
            final(self)@ == old(self)@.taking(snapshot),
            old(self)@.wf() ==> final(self)@.wf(),
    {
        reveal(crate::view::ViewModel::taking);
        set_state(&mut self.connections, self.active_connection, &snapshot);
        if let Some(selection) = self.selection {
            if terminal_projection_in_snapshot(&snapshot, selection.terminal_id).is_none() {
                self.selection = None;
            }
        }
        self.selected_workspace = workspace_selection_after_snapshot(
            self.selected_workspace,
            &snapshot,
        );
        self.focused_pane = focused_pane_for_workspace(
            &snapshot,
            self.selected_workspace,
            self.focused_pane,
        );
        forget_missing_workspaces(
            &mut self.sidebar.collapsed_workspaces,
            self.active_connection.raw,
            &snapshot,
        );
        self.snapshot = snapshot;
        proof {
            let view = old(self)@;
            assert(self@.sidebar.collapsed_workspaces =~= view.taking(self.snapshot).sidebar.collapsed_workspaces);
        }
    }

    fn cancel_hidden_split(&mut self)
        ensures
            final(self)@ == old(self)@.without_hidden_split(),
            old(self)@.wf() ==> final(self)@.wf(),
    {
        reveal(crate::view::ViewModel::without_hidden_split);
        let shown = self.shown_tab_id();
        let hidden: bool = match &self.press.split_drag {
            Some(drag) => shown != Some(drag.tab_id),
            None => false,
        };
        if hidden {
            self.press.split_drag = None;
        }
    }

    fn note_tabs(&mut self, moved: bool)
        ensures
            final(self)@ == old(self)@.noting_tabs(moved),
            old(self)@.wf() ==> final(self)@.wf(),
    {
        reveal(crate::view::ViewModel::noting_tabs);
        let count: usize = match self.selected_workspace_dump() {
            Some(workspace) => workspace.tabs.len(),
            None => 0,
        };
        if self.strip.last_tab_strip_signature.0 != self.selected_workspace
            || self.strip.last_tab_strip_signature.1 != count || moved {
            self.strip.last_tab_strip_signature = (self.selected_workspace, count);
            self.notify();
        }
    }

    fn reveal_tab(&mut self)
        ensures
            final(self)@ == old(self)@.revealing_tab(),
            old(self)@.wf() ==> final(self)@.wf(),
    {
        reveal(crate::view::ViewModel::revealing_tab);
        let active = self.shown_tab_id();
        if active == self.strip.last_revealed_tab {
            return;
        }
        let item: Option<usize> = match (active, self.selected_workspace_dump()) {
            (Some(tab_id), Some(workspace)) => match tab_index(workspace, tab_id) {
                Some(index) => {
                    if index + 1 == workspace.tabs.len() {
                        Some(index + 1)
                    } else {
                        Some(index)
                    }
                },
                None => None,
            },
            _ => None,
        };
        self.strip.last_revealed_tab = active;
        if let Some(index) = item {
            self.ask(Effect::ScrollToTab { index });
            self.notify();
        }
    }

    fn settle_pending_tab(&mut self)
        ensures
            final(self)@ == old(self)@.settling_pending_tab(),
            old(self)@.wf() ==> final(self)@.wf(),
    {
        reveal(crate::view::ViewModel::settling_pending_tab);
        if let Some(tab_id) = self.strip.pending_tab {
            if self.shown_tab_id() == Some(tab_id) || self.tab_by_id(tab_id).is_none() {
                self.strip.pending_tab = None;
            }
        }
    }

    fn is_projected(&self, key: u128) -> (projected: bool)
        ensures
            projected == self@.projects(key),
    {
        match terminal_projection_in_snapshot(&self.snapshot, TerminalId { raw: key }) {
            Some(projection) => projection.terminal_id.raw == key,
            None => false,
        }
    }

    fn reconciled_state(&self, key: u128, rebased: &BTreeMap<u128, RowOffset>) -> (state: Option<
        TerminalScrollState,
    >)
        ensures
            match state {
                Some(state) => self@.scrolling.scroll_accumulators.contains_key(key) && self@.projects(key)
                    && state == self@.scroll_state_after(key, rebased@),
                None => !(self@.scrolling.scroll_accumulators.contains_key(key) && self@.projects(key)),
            },
    {
        if !self.is_projected(key) {
            return None;
        }
        let mut state: TerminalScrollState = match self.scrolling.scroll_accumulators.get(&key) {
            Some(state) => *state,
            None => {
                return None;
            },
        };
        if let Some(snapshot) = self.terminal_snapshots.get(&key) {
            let offset: RowOffset = match rebased.get(&key) {
                Some(offset) => *offset,
                None => state.visual_unacked_rows,
            };
            reconcile_visual_scroll(&mut state, snapshot, offset);
        }
        Some(state)
    }

    fn reconcile_scrolls(&mut self, rebased: &BTreeMap<u128, RowOffset>)
        ensures
            final(self)@ == old(self)@.reconciling(rebased@),
            old(self)@.wf() ==> final(self)@.wf(),
    {
        reveal(crate::view::ViewModel::reconciling);
        let keys = keys_of(&self.scrolling.scroll_accumulators);
        let ghost view = self@;
        let mut states: BTreeMap<u128, TerminalScrollState> = BTreeMap::new();
        let mut i: usize = 0;
        while i < keys.len()
            invariant
                i <= keys.len(),
                self@ == view,
                crate::tables::lists_keys(keys@, view.scrolling.scroll_accumulators.dom()),
                forall|key: u128| #[trigger]
                    states@.contains_key(key) <==> keys@.take(i as int).contains(key)
                        && view.scrolling.scroll_accumulators.contains_key(key) && view.projects(key),
                forall|key: u128| #[trigger]
                    states@.contains_key(key) ==> states@[key] == view.scroll_state_after(
                        key,
                        rebased@,
                    ),
            decreases keys.len() - i,
        {
            let key: u128 = keys[i];
            if let Some(state) = self.reconciled_state(key, rebased) {
                states.insert(key, state);
            }
            proof {
                assert forall|other: u128| #[trigger]
                    keys@.take(i + 1).contains(other) <==> keys@.take(i as int).contains(other)
                        || other == key by {
                    crate::tables::lemma_take_contains(keys@, i as int, other);
                }
            }
            i += 1;
        }
        self.scrolling.scroll_accumulators = states;
        proof {
            assert(keys@.take(i as int) =~= keys@);
            assert forall|key: u128| view.scrolling.scroll_accumulators.contains_key(key) implies
                #[trigger] keys@.contains(key) by {
                assert(keys@.to_set().contains(key));
            }
            assert(self@.scrolling.scroll_accumulators =~= view.reconciling(rebased@).scrolling.scroll_accumulators);
        }
    }

    fn stale_animations(&self) -> (stale: Vec<u128>)
        ensures
            forall|key: u128| #[trigger]
                stale@.contains(key) <==> self@.scrolling.mouse_scroll_animations.contains_key(key)
                    && !self@.animation_leads_on(key),
    {
        let keys = keys_of(&self.scrolling.mouse_scroll_animations);
        let mut stale: Vec<u128> = Vec::new();
        let mut i: usize = 0;
        while i < keys.len()
            invariant
                i <= keys.len(),
                crate::tables::lists_keys(keys@, self@.scrolling.mouse_scroll_animations.dom()),
                forall|key: u128| #[trigger]
                    stale@.contains(key) <==> keys@.take(i as int).contains(key)
                        && !self@.animation_leads_on(key),
            decreases keys.len() - i,
        {
            let key: u128 = keys[i];
            assert(keys@.to_set().contains(key));
            let leads_on: bool = match (
                self.terminal_snapshots.get(&key),
                self.scrolling.mouse_scroll_animations.get(&key),
            ) {
                (Some(snapshot), Some(animation)) => {
                    let base: i64 = snapshot.viewport_position;
                    !((snapshot.rows_before.len() == 0 && animation.target_position.is_above(base))
                        || (snapshot.rows_after.len() == 0 && animation.target_position.is_below(
                        base,
                    )))
                },
                _ => false,
            };
            let ghost listed = stale@;
            if !leads_on {
                stale.push(key);
            }
            proof {
                assert(leads_on == self@.animation_leads_on(key));
                assert forall|other: u128| #[trigger]
                    stale@.contains(other) <==> keys@.take(i + 1).contains(other)
                        && !self@.animation_leads_on(other) by {
                    crate::tables::lemma_take_contains(keys@, i as int, other);
                    crate::tables::lemma_push_contains(listed, key, other);
                }
            }
            i += 1;
        }
        proof {
            assert(keys@.take(i as int) =~= keys@);
            assert forall|key: u128| #[trigger]
                keys@.contains(key) <==> self@.scrolling.mouse_scroll_animations.contains_key(key) by {
                assert(keys@.to_set().contains(key) <==> keys@.contains(key));
            }
        }
        stale
    }

    fn stale_requests(&self) -> (stale: Vec<u128>)
        ensures
            forall|key: u128| #[trigger]
                stale@.contains(key) <==> self@.scrolling.pending_viewport_requests.contains_key(key)
                    && !self@.request_leads_on(key),
    {
        let keys = keys_of(&self.scrolling.pending_viewport_requests);
        let mut stale: Vec<u128> = Vec::new();
        let mut i: usize = 0;
        while i < keys.len()
            invariant
                i <= keys.len(),
                crate::tables::lists_keys(keys@, self@.scrolling.pending_viewport_requests.dom()),
                forall|key: u128| #[trigger]
                    stale@.contains(key) <==> keys@.take(i as int).contains(key)
                        && !self@.request_leads_on(key),
            decreases keys.len() - i,
        {
            let key: u128 = keys[i];
            assert(keys@.to_set().contains(key));
            let leads_on: bool = match (
                self.terminal_snapshots.get(&key),
                self.scrolling.pending_viewport_requests.get(&key),
            ) {
                (Some(snapshot), Some(request)) => {
                    let base: i64 = snapshot.viewport_position;
                    !((snapshot.rows_before.len() == 0 && request.1 > base) || (
                    snapshot.rows_after.len() == 0 && request.1 < base))
                },
                _ => false,
            };
            let ghost listed = stale@;
            if !leads_on {
                stale.push(key);
            }
            proof {
                assert(leads_on == self@.request_leads_on(key));
                assert forall|other: u128| #[trigger]
                    stale@.contains(other) <==> keys@.take(i + 1).contains(other)
                        && !self@.request_leads_on(other) by {
                    crate::tables::lemma_take_contains(keys@, i as int, other);
                    crate::tables::lemma_push_contains(listed, key, other);
                }
            }
            i += 1;
        }
        proof {
            assert(keys@.take(i as int) =~= keys@);
            assert forall|key: u128| #[trigger]
                keys@.contains(key) <==> self@.scrolling.pending_viewport_requests.contains_key(key) by {
                assert(keys@.to_set().contains(key) <==> keys@.contains(key));
            }
        }
        stale
    }

    fn drop_stale_movements(&mut self)
        ensures
            final(self)@ == old(self)@.without_stale_movements(),
            old(self)@.wf() ==> final(self)@.wf(),
    {
        reveal(crate::view::ViewModel::without_stale_movements);
        let animations = self.stale_animations();
        let requests = self.stale_requests();
        drop_keys(&mut self.scrolling.mouse_scroll_animations, &animations);
        drop_keys(&mut self.scrolling.pending_viewport_requests, &requests);
        proof {
            let view = old(self)@;
            assert(self@.scrolling.mouse_scroll_animations
                =~= view.without_stale_movements().scrolling.mouse_scroll_animations) by {
                assert forall|key: u128| animations@.to_set().contains(key)
                    == #[trigger] animations@.contains(key) by {}
            }
            assert(self@.scrolling.pending_viewport_requests
                =~= view.without_stale_movements().scrolling.pending_viewport_requests) by {
                assert forall|key: u128| requests@.to_set().contains(key)
                    == #[trigger] requests@.contains(key) by {}
            }
        }
    }

    fn close_stale_overlays(&mut self)
        ensures
            final(self)@ == old(self)@.without_stale_overlays(),
            old(self)@.wf() ==> final(self)@.wf(),
    {
        reveal(crate::view::ViewModel::without_stale_overlays);
        let menu_is_stale: bool = match self.overlay.context_menu {
            Some(menu) => !self.context_menu_target_exists(menu.target),
            None => false,
        };
        let rename_is_stale: bool = match self.overlay.rename_target {
            Some(target) => !self.rename_target_exists(target),
            None => false,
        };
        let dialog_is_stale: bool = match self.overlay.dialog {
            Some(dialog) => !self.dialog_target_exists(dialog),
            None => false,
        };
        if menu_is_stale {
            self.overlay.context_menu = None;
        }
        if rename_is_stale {
            self.overlay.rename_target = None;
            self.overlay.rename_value = Vec::new();
        }
        if dialog_is_stale {
            self.overlay.dialog = None;
        }
    }

    fn end_stale_ime(&mut self)
        ensures
            final(self)@ == old(self)@.without_stale_ime(),
            old(self)@.wf() ==> final(self)@.wf(),
    {
        reveal(crate::view::ViewModel::without_stale_ime);
        if self.ime.terminal.is_some() && self.ime.terminal != self.active_terminal_id() {
            self.clear_ime();
        }
    }

    fn would_move_with(&self, snapshot: &ModelSnapshot) -> (moves: bool)
        ensures
            moves == self@.moves_with(*snapshot),
    {
        let selected = workspace_selection_after_snapshot(self.selected_workspace, snapshot);
        selected != self.selected_workspace || focused_pane_for_workspace(
            snapshot,
            selected,
            self.focused_pane,
        ) != self.focused_pane
    }

    /// Takes over a state of the server that is shown, unless it is not newer
    /// than the present one. `rebased` tells where the picture of a terminal
    /// would be after its grid moved.
    pub fn install_snapshot(
        &mut self,
        snapshot: Arc<ModelSnapshot>,
        rebased: &BTreeMap<u128, RowOffset>,
    )
        ensures
            final(self)@ == old(self)@.installing(snapshot, rebased@),
            old(self)@.wf() ==> final(self)@.wf(),
    {
        if snapshot.state_revision <= self.snapshot.state_revision {
            return;
        }
        let moved = self.would_move_with(&snapshot);
        self.take_snapshot(snapshot);
        self.cancel_hidden_split();
        self.note_tabs(moved);
        self.reveal_tab();
        self.settle_pending_tab();
        self.reconcile_scrolls(rebased);
        self.drop_stale_movements();
        self.close_stale_overlays();
        self.end_stale_ime();
        self.notify();
    }

    /// Takes over a state of one of the servers.
    pub fn install_connection_snapshot(
        &mut self,
        connection_id: ConnectionId,
        snapshot: Arc<ModelSnapshot>,
        rebased: &BTreeMap<u128, RowOffset>,
    )
        ensures
            final(self)@ == old(self)@.installing_for(connection_id, snapshot, rebased@),
            old(self)@.wf() ==> final(self)@.wf(),
    {
        if connection_id == self.active_connection {
            self.install_snapshot(snapshot, rebased);
        } else {
            self.store_snapshot(connection_id, snapshot);
        }
    }

    fn store_snapshot(&mut self, connection_id: ConnectionId, snapshot: Arc<ModelSnapshot>)
        ensures
            final(self)@ == old(self)@.storing(connection_id, snapshot),
            old(self)@.wf() ==> final(self)@.wf(),
    {
        let newer: bool = match self.connection_by_id(connection_id) {
            Some(connection) => snapshot.state_revision > connection.snapshot.state_revision,
            None => false,
        };
        if newer {
            set_state(&mut self.connections, connection_id, &snapshot);
            self.notify();
        }
    }

    /// Takes the outcome of a command: the state after it and what it did.
    pub fn finish_command(
        &mut self,
        connection_id: ConnectionId,
        snapshot: Arc<ModelSnapshot>,
        rebased: &BTreeMap<u128, RowOffset>,
        result: OperationResult,
    )
        ensures
            final(self)@ == old(self)@.command_done(connection_id, snapshot, rebased@, result),
            old(self)@.wf() ==> final(self)@.wf(),
    {
        if connection_id == self.active_connection {
            self.install_snapshot(snapshot, rebased);
            self.apply_operation_result(result);
        } else {
            self.store_snapshot(connection_id, snapshot);
        }
    }

    /// Asks for a new workspace, on the channel that was activated last.
    pub fn dispatch_new_workspace(&mut self)
        ensures
            final(self)@ == old(self)@.asking(
                crate::command::EffectModel::CreateWorkspace { transport: old(self)@.client },
            ),
            old(self)@.wf() ==> final(self)@.wf(),
    {
        self.ask(Effect::CreateWorkspace { transport: self.client });
    }

    /// Shows a workspace that was created.
    pub fn finish_new_workspace(
        &mut self,
        snapshot: Arc<ModelSnapshot>,
        rebased: &BTreeMap<u128, RowOffset>,
        workspace_id: WorkspaceId,
    )
        ensures
            final(self)@ == old(self)@.workspace_created(snapshot, rebased@, workspace_id),
            old(self)@.wf() ==> final(self)@.wf(),
    {
        self.install_snapshot(snapshot, rebased);
        self.select_workspace_locally(workspace_id);
    }
}

/// What the steps after taking a state over leave as it is.
proof fn lemma_renewal_keeps(
    view: crate::view::ViewModel,
    snapshot: Arc<ModelSnapshot>,
    rebased: Map<u128, RowOffset>,
)
    ensures
        ({
            let taken = view.taking(snapshot);
            let after = view.renewed(snapshot, rebased);
            &&& after.snapshot == taken.snapshot
            &&& after.connections == taken.connections
            &&& after.active_connection == taken.active_connection
            &&& after.selected_workspace == taken.selected_workspace
            &&& after.focused_pane == taken.focused_pane
            &&& after.selection == taken.selection
            &&& after.terminal_snapshots == taken.terminal_snapshots
        }),
{
    reveal(crate::view::ViewModel::without_hidden_split);
    reveal(crate::view::ViewModel::noting_tabs);
    reveal(crate::view::ViewModel::revealing_tab);
    reveal(crate::view::ViewModel::settling_pending_tab);
    reveal(crate::view::ViewModel::reconciling);
    reveal(crate::view::ViewModel::without_stale_movements);
    reveal(crate::view::ViewModel::without_stale_overlays);
    reveal(crate::view::ViewModel::without_stale_ime);
}

/// A state that is not newer than the present one changes nothing.
pub proof fn law_stale_states_are_ignored(
    view: crate::view::ViewModel,
    snapshot: Arc<ModelSnapshot>,
    rebased: Map<u128, RowOffset>,
)
    requires
        snapshot.state_revision <= view.snapshot.state_revision,
    ensures
        view.installing(snapshot, rebased) == view,
{
}

/// The state shown never gets older, and a state that comes twice is taken
/// once.
pub proof fn law_states_only_advance(
    view: crate::view::ViewModel,
    snapshot: Arc<ModelSnapshot>,
    rebased: Map<u128, RowOffset>,
    again: Map<u128, RowOffset>,
)
    ensures
        ({
            let after = view.installing(snapshot, rebased);
            &&& after.snapshot.state_revision >= view.snapshot.state_revision
            &&& after.snapshot.state_revision >= snapshot.state_revision
            &&& after.installing(snapshot, again) == after
        }),
{
    reveal(crate::view::ViewModel::taking);
    lemma_renewal_keeps(view, snapshot, rebased);
}

/// The choice of a window is its own: it shows the workspace that it showed
/// and focuses the pane that it focused as long as they are there, whatever
/// another window made active on the server.
pub proof fn law_local_choices_survive(
    view: crate::view::ViewModel,
    snapshot: Arc<ModelSnapshot>,
    rebased: Map<u128, RowOffset>,
    workspace_id: WorkspaceId,
    pane_id: crate::ids::PaneId,
)
    requires
        view.selected_workspace == Some(workspace_id),
        view.focused_pane == Some(pane_id),
        snapshot.has_workspace(workspace_id),
    ensures
        ({
            let after = view.installing(snapshot, rebased);
            &&& after.selected_workspace == view.selected_workspace
            &&& snapshot.workspace_of(workspace_id)->0.active_tab_shows(pane_id)
                ==> after.focused_pane == view.focused_pane
        }),
{
    reveal(crate::view::ViewModel::taking);
    lemma_renewal_keeps(view, snapshot, rebased);
}

/// A selection stays while its terminal is there, and goes with it.
pub proof fn law_selections_live_with_their_terminal(
    view: crate::view::ViewModel,
    snapshot: Arc<ModelSnapshot>,
    rebased: Map<u128, RowOffset>,
)
    requires
        view.selection is Some,
        snapshot.state_revision > view.snapshot.state_revision,
    ensures
        view.installing(snapshot, rebased).selection == (if snapshot.projection_of(
            view.selection->0.terminal_id,
        ) is Some {
            view.selection
        } else {
            None
        }),
{
    reveal(crate::view::ViewModel::taking);
    lemma_renewal_keeps(view, snapshot, rebased);
}

/// A tab that was asked for is no longer waited for once it is active or
/// gone.
pub proof fn law_pending_tabs_settle(
    view: crate::view::ViewModel,
    snapshot: Arc<ModelSnapshot>,
    rebased: Map<u128, RowOffset>,
)
    requires
        snapshot.state_revision > view.snapshot.state_revision,
    ensures
        ({
            let after = view.installing(snapshot, rebased);
            after.strip.pending_tab is Some ==> after.strip.pending_tab == view.strip.pending_tab
                && after.active_tab() != after.strip.pending_tab && after.tab(after.strip.pending_tab->0)
                is Some
        }),
{
    lemma_renewal_keeps(view, snapshot, rebased);
    reveal(crate::view::ViewModel::taking);
    reveal(crate::view::ViewModel::without_hidden_split);
    reveal(crate::view::ViewModel::noting_tabs);
    reveal(crate::view::ViewModel::revealing_tab);
    reveal(crate::view::ViewModel::settling_pending_tab);
    reveal(crate::view::ViewModel::reconciling);
    reveal(crate::view::ViewModel::without_stale_movements);
    reveal(crate::view::ViewModel::without_stale_overlays);
    reveal(crate::view::ViewModel::without_stale_ime);
    let c = view.renewed_tabs(snapshot);
    assert(c.strip.pending_tab == view.strip.pending_tab);
    let d = c.settling_pending_tab();
    let g = d.reconciling(rebased).without_stale_movements().without_stale_overlays();
    assert(g.strip.pending_tab == d.strip.pending_tab);
    let after = view.installing(snapshot, rebased);
    assert(after.strip.pending_tab == d.strip.pending_tab);
    assert(after.active_tab() == d.active_tab());
    if let Some(tab_id) = d.strip.pending_tab {
        assert(after.tab(tab_id) == d.tab(tab_id));
    }
}

/// After a state was taken over, what is still on top of the window has its
/// target.
pub proof fn law_overlays_keep_their_targets(
    view: crate::view::ViewModel,
    snapshot: Arc<ModelSnapshot>,
    rebased: Map<u128, RowOffset>,
)
    requires
        snapshot.state_revision > view.snapshot.state_revision,
    ensures
        ({
            let after = view.installing(snapshot, rebased);
            &&& after.overlay.context_menu is Some ==> after.menu_target_exists(
                after.overlay.context_menu->0.target,
            )
            &&& after.overlay.rename_target is Some ==> after.rename_target_exists(after.overlay.rename_target->0)
            &&& after.overlay.dialog is Some ==> after.dialog_target_exists(after.overlay.dialog->0)
        }),
{
    reveal(crate::view::ViewModel::without_stale_overlays);
    reveal(crate::view::ViewModel::without_stale_ime);
    let f = view.renewed_tabs(snapshot).settling_pending_tab().reconciling(
        rebased,
    ).without_stale_movements();
    let g = f.without_stale_overlays();
    let after = view.installing(snapshot, rebased);
    assert(after == g.without_stale_ime().notified());
    if let Some(menu) = after.overlay.context_menu {
        assert(f.overlay.context_menu == Some(menu));
        assert(f.menu_target_exists(menu.target));
        assert(after.menu_target_exists(menu.target) == f.menu_target_exists(menu.target));
    }
    if let Some(target) = after.overlay.rename_target {
        assert(f.overlay.rename_target == Some(target));
        assert(after.rename_target_exists(target) == f.rename_target_exists(target));
    }
    if let Some(dialog) = after.overlay.dialog {
        assert(f.overlay.dialog == Some(dialog));
        assert(after.dialog_target_exists(dialog) == f.dialog_target_exists(dialog));
    }
}

/// A state of a server that is not shown changes only what is kept of that
/// server.
pub proof fn law_hidden_servers_change_nothing_shown(
    view: crate::view::ViewModel,
    id: ConnectionId,
    snapshot: Arc<ModelSnapshot>,
    rebased: Map<u128, RowOffset>,
)
    requires
        id != view.active_connection,
    ensures
        ({
            let after = view.installing_for(id, snapshot, rebased);
            after == crate::view::ViewModel {
                connections: after.connections,
                effects: after.effects,
                ..view
            }
        }),
{
}

/// A newer state is taken whole: it is what the window shows from then on, with
/// the workspace and the pane chosen from it, and its connection holds it.
pub proof fn law_newer_states_are_taken(
    view: crate::view::ViewModel,
    snapshot: Arc<ModelSnapshot>,
    rebased: Map<u128, RowOffset>,
    index: int,
)
    requires
        snapshot.state_revision > view.snapshot.state_revision,
        0 <= index < view.connections.len(),
        view.connections[index].id == view.active_connection,
        forall|j: int|
            0 <= j < index ==> (#[trigger] view.connections[j]).id != view.active_connection,
    ensures
        ({
            let after = view.installing(snapshot, rebased);
            &&& after.snapshot == *snapshot
            &&& after.selected_workspace == snapshot.selection_after(view.selected_workspace)
            &&& after.focused_pane == snapshot.focus_in(after.selected_workspace, view.focused_pane)
            &&& after.connections == view.connections.update(
                index,
                WorkspaceConnection { snapshot, ..view.connections[index] },
            )
            &&& after.effects.last() == crate::command::EffectModel::Notify
        }),
{
    reveal(crate::view::ViewModel::taking);
    lemma_renewal_keeps(view, snapshot, rebased);
    lemma_renewal_ends_drawn(view, snapshot, rebased);
    crate::lookup::lemma_is_first(
        view.connections,
        crate::view::connection_has_id(view.active_connection),
        index,
    );
}

proof fn lemma_renewal_ends_drawn(
    view: crate::view::ViewModel,
    snapshot: Arc<ModelSnapshot>,
    rebased: Map<u128, RowOffset>,
)
    ensures
        view.renewed(snapshot, rebased).effects.last() == crate::command::EffectModel::Notify,
{
}

/// The state of a server that is not shown is kept for it, where it is newer.
pub proof fn law_hidden_states_are_kept(
    view: crate::view::ViewModel,
    id: ConnectionId,
    snapshot: Arc<ModelSnapshot>,
    rebased: Map<u128, RowOffset>,
    index: int,
)
    requires
        id != view.active_connection,
        0 <= index < view.connections.len(),
        view.connections[index].id == id,
        forall|j: int| 0 <= j < index ==> (#[trigger] view.connections[j]).id != id,
    ensures
        snapshot.state_revision > view.connections[index].snapshot.state_revision ==> {
            let after = view.installing_for(id, snapshot, rebased);
            &&& after.connections == view.connections.update(
                index,
                WorkspaceConnection { snapshot, ..view.connections[index] },
            )
            &&& after.effects == view.effects.push(crate::command::EffectModel::Notify)
            &&& after.snapshot == view.snapshot
        },
        snapshot.state_revision <= view.connections[index].snapshot.state_revision
            ==> view.installing_for(id, snapshot, rebased) == view,
{
    crate::lookup::lemma_is_first(
        view.connections,
        crate::view::connection_has_id(id),
        index,
    );
}

/// The strip brings a tab into view that became active; the last tab brings
/// what stands behind it along.
pub proof fn law_activated_tabs_come_into_view(
    view: crate::view::ViewModel,
    workspace: crate::model::WorkspaceDump,
    index: int,
)
    requires
        view.selected() == Some(workspace),
        0 <= index < workspace.tabs.len(),
        forall|j: int|
            0 <= j < index ==> (#[trigger] workspace.tabs@[j]).id != workspace.tabs@[index].id,
        workspace.active_tab == Some(workspace.tabs@[index].id),
    ensures
        view.strip.last_revealed_tab != workspace.active_tab ==> {
            let after = view.revealing_tab();
            let shown = if index == workspace.tabs.len() - 1 {
                workspace.tabs.len() as int
            } else {
                index
            };
            &&& after.strip.last_revealed_tab == workspace.active_tab
            &&& after.effects == view.effects.push(
                crate::command::EffectModel::ScrollToTab { index: shown as usize },
            ).push(crate::command::EffectModel::Notify)
        },
        view.strip.last_revealed_tab == workspace.active_tab ==> view.revealing_tab() == view,
{
    reveal(crate::view::ViewModel::revealing_tab);
    crate::lookup::lemma_is_first(
        workspace.tabs@,
        crate::model::tab_has_id(workspace.tabs@[index].id),
        index,
    );
}

/// The window is drawn for a new state where its strip has other tabs than it
/// had, or where the focus moved.
pub proof fn law_changed_strips_are_drawn(view: crate::view::ViewModel, moved: bool)
    ensures
        ({
            let tabs = match view.selected() {
                Some(workspace) => workspace.tabs.len() as nat,
                None => 0,
            };
            let differs = view.strip.last_tab_strip_signature != (view.selected_workspace, tabs);
            let after = view.noting_tabs(moved);
            &&& differs || moved ==> after.effects == view.effects.push(
                crate::command::EffectModel::Notify,
            ) && after.strip.last_tab_strip_signature == (view.selected_workspace, tabs)
            &&& !differs && !moved ==> after == view
        }),
{
    reveal(crate::view::ViewModel::noting_tabs);
}

/// A divider that is dragged in a tab that is no longer shown is let go.
pub proof fn law_hidden_dividers_are_let_go(view: crate::view::ViewModel)
    requires
        view.press.split_drag is Some,
    ensures
        view.active_tab() == Some(view.press.split_drag->0.tab_id) ==> view.without_hidden_split()
            == view,
        view.active_tab() != Some(view.press.split_drag->0.tab_id)
            ==> view.without_hidden_split().press.split_drag is None,
{
    reveal(crate::view::ViewModel::without_hidden_split);
}

/// Text that is composed for a terminal that lost the focus is dropped.
pub proof fn law_compositions_end_with_the_focus(view: crate::view::ViewModel)
    requires
        view.ime.terminal is Some,
    ensures
        view.ime.terminal == view.active_terminal() ==> view.without_stale_ime() == view,
        view.ime.terminal != view.active_terminal() ==> view.without_stale_ime().ime.terminal is None
            && view.without_stale_ime().ime.marked.len() == 0,
{
    reveal(crate::view::ViewModel::without_stale_ime);
}

/// The scroll states of terminals that are gone are dropped, and no others.
pub proof fn law_scroll_states_live_with_their_terminal(
    view: crate::view::ViewModel,
    rebased: Map<u128, RowOffset>,
    key: u128,
)
    ensures
        ({
            let after = view.reconciling(rebased).scrolling.scroll_accumulators;
            let projection = view.snapshot.projection_of(TerminalId { raw: key });
            &&& after.contains_key(key) <==> view.scrolling.scroll_accumulators.contains_key(key)
                && projection is Some && projection->0.terminal_id.raw == key
            &&& after.contains_key(key) && !view.terminal_snapshots.contains_key(key) ==> after[key]
                == view.scrolling.scroll_accumulators[key]
        }),
{
    reveal(crate::view::ViewModel::reconciling);
}

/// An animation or a request goes on while it leads to rows that are there.
pub proof fn law_movements_lead_to_rows(
    view: crate::view::ViewModel,
    grid: TerminalSnapshot,
    key: u128,
)
    requires
        view.terminal_snapshots.contains_key(key),
        *view.terminal_snapshots[key] == grid,
        view.scrolling.mouse_scroll_animations.contains_key(key),
        view.scrolling.pending_viewport_requests.contains_key(key),
    ensures
        ({
            let after = view.without_stale_movements().scrolling;
            let unit = crate::offset::units_per_row();
            let base = grid.viewport_position * unit;
            let target = view.scrolling.mouse_scroll_animations[key].target_position.units();
            let asked = view.scrolling.pending_viewport_requests[key].1 * unit;
            &&& after.mouse_scroll_animations.contains_key(key) <==> !(grid.rows_before.len() == 0
                && target > base) && !(grid.rows_after.len() == 0 && target < base)
            &&& after.pending_viewport_requests.contains_key(key) <==> !(grid.rows_before.len() == 0
                && asked > base) && !(grid.rows_after.len() == 0 && asked < base)
        }),
{
    reveal(crate::view::ViewModel::without_stale_movements);
    crate::offset::law_units_order_distances(
        view.scrolling.mouse_scroll_animations[key].target_position,
        grid.viewport_position as int,
    );
    crate::offset::law_units_order_distances(
        RowOffset::Rows(view.scrolling.pending_viewport_requests[key].1),
        grid.viewport_position as int,
    );
}

/// The answer to a command of the active server is installed and followed; that
/// of another is kept for it. A workspace that was created is chosen.
pub proof fn law_answers_are_followed(
    view: crate::view::ViewModel,
    id: ConnectionId,
    snapshot: Arc<ModelSnapshot>,
    rebased: Map<u128, RowOffset>,
    result: OperationResult,
    workspace_id: WorkspaceId,
)
    ensures
        id == view.active_connection ==> view.command_done(id, snapshot, rebased, result)
            == view.installing(snapshot, rebased).following(result),
        id != view.active_connection ==> view.command_done(id, snapshot, rebased, result)
            == view.installing_for(id, snapshot, rebased),
        view.installing(snapshot, rebased).workspace(workspace_id) is Some
            ==> view.workspace_created(snapshot, rebased, workspace_id).selected_workspace == Some(
            workspace_id,
        ),
        view.installing(snapshot, rebased).workspace(workspace_id) is None
            ==> view.workspace_created(snapshot, rebased, workspace_id) == view.installing(
            snapshot,
            rebased,
        ),
{
}

/// Menus, renamings and dialogs stay while what they are about is there, with
/// what was typed.
pub proof fn law_overlays_stay_with_their_targets(view: crate::view::ViewModel)
    ensures
        ({
            let after = view.without_stale_overlays().overlay;
            let before = view.overlay;
            &&& before.context_menu is Some && view.menu_target_exists(
                before.context_menu->0.target,
            ) ==> after.context_menu == before.context_menu
            &&& before.rename_target is Some && view.rename_target_exists(before.rename_target->0)
                ==> after.rename_target == before.rename_target && after.rename_value
                == before.rename_value
            &&& before.rename_target is Some && !view.rename_target_exists(before.rename_target->0)
                ==> after.rename_target is None && after.rename_value.len() == 0
            &&& before.dialog is Some && view.dialog_target_exists(before.dialog->0)
                ==> after.dialog == before.dialog
            &&& after.field == before.field
        }),
{
    reveal(crate::view::ViewModel::without_stale_overlays);
}

/// A tab that was asked for is waited for until it is active or gone.
pub proof fn law_pending_tabs_are_waited_for(view: crate::view::ViewModel, tab_id: crate::ids::TabId)
    requires
        view.strip.pending_tab == Some(tab_id),
    ensures
        view.active_tab() != Some(tab_id) && view.tab(tab_id) is Some
            ==> view.settling_pending_tab() == view,
        view.active_tab() == Some(tab_id) || view.tab(tab_id) is None
            ==> view.settling_pending_tab().strip.pending_tab is None,
{
    reveal(crate::view::ViewModel::settling_pending_tab);
}

/// What is folded stays folded, but for workspaces that the server no longer
/// has.
pub proof fn law_folds_stay_with_their_workspaces(
    view: crate::view::ViewModel,
    snapshot: Arc<ModelSnapshot>,
    connection: u64,
    workspace: u128,
)
    ensures
        ({
            let before = view.sidebar.collapsed_workspaces;
            let after = view.taking(snapshot).sidebar.collapsed_workspaces;
            after.contains((connection, workspace)) <==> before.contains((connection, workspace))
                && (connection != view.active_connection.raw || snapshot.workspace_of(
                WorkspaceId { raw: workspace },
            ) is Some)
        }),
        view.taking(snapshot).sidebar.collapsed_connections == view.sidebar.collapsed_connections,
{
    reveal(crate::view::ViewModel::taking);
}

} // verus!
