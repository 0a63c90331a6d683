//! The state of a server as it is projected to a window.

use crate::ids::PaneId;
use crate::ids::TabId;
use crate::ids::TerminalId;
use crate::ids::WorkspaceId;
use std::collections::BTreeSet;
use vstd::prelude::*;

verus! {

/// The direction in which a split lays out its two parts.
#[derive(Clone, Copy, PartialEq, Eq, Structural, Debug)]
pub enum SplitAxis {
    Horizontal,
    Vertical,
}

/// What a pane is for.
#[derive(Clone, Copy, PartialEq, Eq, Structural, Debug)]
pub enum SurfaceKind {
    Empty,
    Terminal,
    Agent,
    FileBrowser,
    ImagePreview,
    MarkdownPreview,
    Diff,
}

/// What a pane shows.
#[derive(Clone, Copy, PartialEq, Eq, Structural, Debug)]
pub enum SurfaceState {
    Empty,
    Terminal { terminal_id: TerminalId, columns: usize, lines: usize },
}

/// A terminal that the server projects.
#[derive(Clone, Copy, PartialEq, Eq, Structural, Debug)]
pub struct TerminalProjection {
    pub terminal_id: TerminalId,
}

/// The panes of a tab: one pane, or a split of two trees.
#[derive(Debug)]
pub enum PaneTreeDump {
    Leaf {
        pane_id: PaneId,
        surface_kind: SurfaceKind,
        surface_state: SurfaceState,
        terminal: Option<TerminalProjection>,
    },
    Split {
        axis: SplitAxis,
        /// Bits of the share of the first part.
        ratio: u32,
        first: Box<PaneTreeDump>,
        second: Box<PaneTreeDump>,
    },
}

#[derive(Debug)]
pub struct TabDump {
    pub id: TabId,
    pub title: String,
    pub active_pane: PaneId,
    pub tree: PaneTreeDump,
}

#[derive(Debug)]
pub struct WorkspaceDump {
    pub id: WorkspaceId,
    pub title: String,
    pub active_tab: Option<TabId>,
    pub tabs: Vec<TabDump>,
}

/// Which program an agent is.
#[derive(Clone, Copy, PartialEq, Eq, Structural, Debug)]
pub enum AgentKind {
    Pi,
    Other,
}

#[derive(Clone, Copy, PartialEq, Eq, Structural, Debug)]
pub enum TerminalStatus {
    Running,
    Exited,
}

/// An agent that runs, or ran, in a pane.
#[derive(Debug)]
pub struct AgentDump {
    pub pane_id: PaneId,
    pub terminal_id: TerminalId,
    pub workspace_id: WorkspaceId,
    pub kind: AgentKind,
    /// The place of its program among the colours of the theme.
    pub color_slot: usize,
    pub status: TerminalStatus,
    /// Whether it is producing output.
    pub active: bool,
    pub cwd: String,
    pub display_label: String,
}

/// The state of a server at one revision. A server that lists no workspaces
/// may still project a single one.
#[derive(Debug)]
pub struct ModelSnapshot {
    pub state_revision: u64,
    pub workspace: Option<WorkspaceDump>,
    pub workspaces: Vec<WorkspaceDump>,
    pub active_workspace: Option<WorkspaceId>,
    pub focused_pane: Option<PaneId>,
    pub agents: Vec<AgentDump>,
}

pub open spec fn workspace_has_id(id: WorkspaceId) -> spec_fn(WorkspaceDump) -> bool {
    |workspace: WorkspaceDump| workspace.id == id
}

pub open spec fn tab_has_id(id: TabId) -> spec_fn(TabDump) -> bool {
    |tab: TabDump| tab.id == id
}

pub open spec fn agent_is_in(pane_id: PaneId) -> spec_fn(AgentDump) -> bool {
    |agent: AgentDump| agent.pane_id == pane_id
}

impl ModelSnapshot {
    /// The workspaces of the server, in the order in which they are shown.
    pub open spec fn shown(self) -> Seq<WorkspaceDump> {
        if self.workspaces.len() > 0 {
            self.workspaces@
        } else {
            match self.workspace {
                Some(workspace) => seq![workspace],
                None => Seq::empty(),
            }
        }
    }

    pub open spec fn workspace_of(self, id: WorkspaceId) -> Option<WorkspaceDump> {
        crate::lookup::item_where(self.shown(), workspace_has_id(id))
    }

    pub open spec fn has_workspace(self, id: WorkspaceId) -> bool {
        self.workspace_of(id) is Some
    }

    pub open spec fn agent_in(self, pane_id: PaneId) -> Option<AgentDump> {
        crate::lookup::item_where(self.agents@, agent_is_in(pane_id))
    }

    /// The workspace to show when the window showed `selected` before: that
    /// one if it is still there, else the active one, else the first.
    pub open spec fn selection_after(self, selected: Option<WorkspaceId>) -> Option<WorkspaceId> {
        if selected is Some && self.has_workspace(selected->0) {
            selected
        } else if self.active_workspace is Some && self.has_workspace(self.active_workspace->0) {
            self.active_workspace
        } else if self.shown().len() > 0 {
            Some(self.shown()[0].id)
        } else {
            None
        }
    }

    /// The pane to focus in a workspace: the preferred one if the active tab
    /// shows it, else the one that the server focuses there, else the active
    /// pane of the active tab.
    pub open spec fn focus_in(
        self,
        workspace_id: Option<WorkspaceId>,
        preferred: Option<PaneId>,
    ) -> Option<PaneId> {
        if workspace_id is None || !self.has_workspace(workspace_id->0) {
            None
        } else {
            let workspace = self.workspace_of(workspace_id->0)->0;
            if preferred is Some && workspace.active_tab_shows(preferred->0) {
                preferred
            } else if self.active_workspace == workspace_id && self.focused_pane is Some
                && workspace.active_tab_shows(self.focused_pane->0) {
                self.focused_pane
            } else {
                workspace.active_pane()
            }
        }
    }

    /// The projection of a terminal, wherever it is shown.
    pub open spec fn projection_of(self, terminal_id: TerminalId) -> Option<TerminalProjection> {
        projection_in_workspaces(self.shown(), terminal_id)
    }

    /// The terminal that a pane shows, in any tab of any workspace.
    pub open spec fn terminal_in(self, pane_id: PaneId) -> Option<TerminalId> {
        terminal_in_workspaces(self.shown(), pane_id)
    }
}

impl WorkspaceDump {
    pub open spec fn tab_of(self, id: TabId) -> Option<TabDump> {
        crate::lookup::item_where(self.tabs@, tab_has_id(id))
    }

    pub open spec fn tab_index(self, id: TabId) -> Option<int> {
        crate::lookup::first_where(self.tabs@, tab_has_id(id))
    }

    pub open spec fn active(self) -> Option<TabDump> {
        match self.active_tab {
            Some(id) => self.tab_of(id),
            None => None,
        }
    }

    pub open spec fn active_pane(self) -> Option<PaneId> {
        match self.active() {
            Some(tab) => Some(tab.active_pane),
            None => None,
        }
    }

    pub open spec fn active_tab_shows(self, pane_id: PaneId) -> bool {
        match self.active() {
            Some(tab) => tab.tree.shows(pane_id),
            None => false,
        }
    }
}

impl AgentDump {
    pub open spec fn runs(self) -> bool {
        self.status == TerminalStatus::Running
    }
}

impl PaneTreeDump {
    /// The tree holds a pane.
    pub open spec fn shows(self, pane: PaneId) -> bool
        decreases self,
    {
        match self {
            PaneTreeDump::Leaf { pane_id, .. } => pane_id == pane,
            PaneTreeDump::Split { first, second, .. } => first.shows(pane) || second.shows(pane),
        }
    }

    /// The terminal in a pane of the tree.
    pub open spec fn terminal_in(self, pane: PaneId) -> Option<TerminalId>
        decreases self,
    {
        match self {
            PaneTreeDump::Leaf { pane_id, surface_state, .. } => if pane_id == pane {
                match surface_state {
                    SurfaceState::Terminal { terminal_id, .. } => Some(terminal_id),
                    SurfaceState::Empty => None,
                }
            } else {
                None
            },
            PaneTreeDump::Split { first, second, .. } => match first.terminal_in(pane) {
                Some(terminal_id) => Some(terminal_id),
                None => second.terminal_in(pane),
            },
        }
    }

    /// The projection of a terminal that the tree shows.
    pub open spec fn projection_of(self, terminal: TerminalId) -> Option<TerminalProjection>
        decreases self,
    {
        match self {
            PaneTreeDump::Leaf { surface_state, terminal: projection, .. } => match surface_state {
                SurfaceState::Terminal { terminal_id, .. } => if terminal_id == terminal {
                    projection
                } else {
                    None
                },
                SurfaceState::Empty => None,
            },
            PaneTreeDump::Split { first, second, .. } => match first.projection_of(terminal) {
                Some(projection) => Some(projection),
                None => second.projection_of(terminal),
            },
        }
    }

    /// The terminals that the tree projects.
    pub open spec fn terminals(self) -> Set<u128>
        decreases self,
    {
        match self {
            PaneTreeDump::Leaf { terminal, .. } => match terminal {
                Some(projection) => set![projection.terminal_id.raw],
                None => Set::empty(),
            },
            PaneTreeDump::Split { first, second, .. } => first.terminals().union(
                second.terminals(),
            ),
        }
    }

    /// The split at a path from the root, with its two parts; the path goes to
    /// the second part where it holds `true`.
    pub open spec fn split_at(self, path: Seq<bool>) -> Option<
        (SplitAxis, u32, PaneTreeDump, PaneTreeDump),
    >
        decreases path.len(),
    {
        match self {
            PaneTreeDump::Leaf { .. } => None,
            PaneTreeDump::Split { axis, ratio, first, second } => if path.len() == 0 {
                Some((axis, ratio, *first, *second))
            } else if path[0] {
                second.split_at(path.drop_first())
            } else {
                first.split_at(path.drop_first())
            },
        }
    }
}

pub open spec fn projection_in_tabs(tabs: Seq<TabDump>, terminal_id: TerminalId) -> Option<
    TerminalProjection,
>
    decreases tabs.len(),
{
    if tabs.len() == 0 {
        None
    } else {
        match projection_in_tabs(tabs.drop_last(), terminal_id) {
            Some(projection) => Some(projection),
            None => tabs.last().tree.projection_of(terminal_id),
        }
    }
}

pub open spec fn projection_in_workspaces(
    workspaces: Seq<WorkspaceDump>,
    terminal_id: TerminalId,
) -> Option<TerminalProjection>
    decreases workspaces.len(),
{
    if workspaces.len() == 0 {
        None
    } else {
        match projection_in_workspaces(workspaces.drop_last(), terminal_id) {
            Some(projection) => Some(projection),
            None => projection_in_tabs(workspaces.last().tabs@, terminal_id),
        }
    }
}

pub open spec fn terminal_in_tabs(tabs: Seq<TabDump>, pane_id: PaneId) -> Option<TerminalId>
    decreases tabs.len(),
{
    if tabs.len() == 0 {
        None
    } else {
        match terminal_in_tabs(tabs.drop_last(), pane_id) {
            Some(terminal_id) => Some(terminal_id),
            None => tabs.last().tree.terminal_in(pane_id),
        }
    }
}

pub open spec fn terminal_in_workspaces(
    workspaces: Seq<WorkspaceDump>,
    pane_id: PaneId,
) -> Option<TerminalId>
    decreases workspaces.len(),
{
    if workspaces.len() == 0 {
        None
    } else {
        match terminal_in_workspaces(workspaces.drop_last(), pane_id) {
            Some(terminal_id) => Some(terminal_id),
            None => terminal_in_tabs(workspaces.last().tabs@, pane_id),
        }
    }
}

/// How many workspaces a server shows.
pub fn shown_workspace_count(snapshot: &ModelSnapshot) -> (count: usize)
    ensures
        count == snapshot.shown().len(),
{
    if snapshot.workspaces.len() > 0 {
        snapshot.workspaces.len()
    } else if snapshot.workspace.is_some() {
        1
    } else {
        0
    }
}

/// The workspace at a place in the order in which they are shown.
pub fn shown_workspace(snapshot: &ModelSnapshot, index: usize) -> (workspace: &WorkspaceDump)
    requires
        index < snapshot.shown().len(),
    ensures
        *workspace == snapshot.shown()[index as int],
{
    if snapshot.workspaces.len() > 0 {
        &snapshot.workspaces[index]
    } else {
        match &snapshot.workspace {
            Some(workspace) => workspace,
            None => {
                assert(false);
                &snapshot.workspaces[index]
            },
        }
    }
}

/// Where a workspace stands in the order in which they are shown.
pub fn workspace_index(snapshot: &ModelSnapshot, workspace_id: WorkspaceId) -> (index: Option<usize>)
    ensures
        match index {
            Some(index) => crate::lookup::first_where(
                snapshot.shown(),
                workspace_has_id(workspace_id),
            ) == Some(index as int) && index < snapshot.shown().len(),
            None => crate::lookup::first_where(
                snapshot.shown(),
                workspace_has_id(workspace_id),
            ) is None,
        },
{
    let ghost property = workspace_has_id(workspace_id);
    let count: usize = shown_workspace_count(snapshot);
    let mut i: usize = 0;
    while i < count
        invariant
            i <= count,
            count == snapshot.shown().len(),
            property == workspace_has_id(workspace_id),
            forall|j: int| 0 <= j < i ==> !property(#[trigger] snapshot.shown()[j]),
        decreases count - i,
    {
        if shown_workspace(snapshot, i).id == workspace_id {
            proof {
                crate::lookup::lemma_is_first(snapshot.shown(), property, i as int);
            }
            return Some(i);
        }
        i += 1;
    }
    proof {
        crate::lookup::lemma_none_is_first(snapshot.shown(), property);
    }
    None
}

pub fn workspace_dump_for_snapshot(snapshot: &ModelSnapshot, workspace_id: WorkspaceId) -> (workspace:
    Option<&WorkspaceDump>)
    ensures
        crate::lookup::refers(workspace, snapshot.workspace_of(workspace_id)),
        workspace is Some ==> workspace->0.id == workspace_id,
{
    proof {
        crate::lookup::lemma_first_where(snapshot.shown(), workspace_has_id(workspace_id));
    }
    match workspace_index(snapshot, workspace_id) {
        Some(index) => Some(shown_workspace(snapshot, index)),
        None => None,
    }
}

pub fn workspace_exists_in_snapshot(snapshot: &ModelSnapshot, workspace_id: WorkspaceId) -> (exists_in:
    bool)
    ensures
        exists_in == snapshot.has_workspace(workspace_id),
{
    workspace_index(snapshot, workspace_id).is_some()
}

pub fn first_workspace_id_in_snapshot(snapshot: &ModelSnapshot) -> (id: Option<WorkspaceId>)
    ensures
        id == (if snapshot.shown().len() > 0 {
            Some(snapshot.shown()[0].id)
        } else {
            None
        }),
{
    if shown_workspace_count(snapshot) > 0 {
        Some(shown_workspace(snapshot, 0).id)
    } else {
        None
    }
}

pub fn workspace_selection_after_snapshot(
    selected_workspace: Option<WorkspaceId>,
    snapshot: &ModelSnapshot,
) -> (selection: Option<WorkspaceId>)
    ensures
        selection == snapshot.selection_after(selected_workspace),
{
    if let Some(selected) = selected_workspace {
        if workspace_exists_in_snapshot(snapshot, selected) {
            return Some(selected);
        }
    }
    if let Some(active) = snapshot.active_workspace {
        if workspace_exists_in_snapshot(snapshot, active) {
            return Some(active);
        }
    }
    first_workspace_id_in_snapshot(snapshot)
}

/// Where a tab stands in its workspace.
pub fn tab_index(workspace: &WorkspaceDump, tab_id: TabId) -> (index: Option<usize>)
    ensures
        match index {
            Some(index) => workspace.tab_index(tab_id) == Some(index as int) && index
                < workspace.tabs.len() && workspace.tabs@[index as int].id == tab_id,
            None => workspace.tab_index(tab_id) is None,
        },
{
    let ghost property = tab_has_id(tab_id);
    let mut i: usize = 0;
    while i < workspace.tabs.len()
        invariant
            i <= workspace.tabs.len(),
            property == tab_has_id(tab_id),
            forall|j: int| 0 <= j < i ==> !property(#[trigger] workspace.tabs@[j]),
        decreases workspace.tabs.len() - i,
    {
        if workspace.tabs[i].id == tab_id {
            proof {
                crate::lookup::lemma_is_first(workspace.tabs@, property, i as int);
            }
            return Some(i);
        }
        i += 1;
    }
    proof {
        crate::lookup::lemma_none_is_first(workspace.tabs@, property);
    }
    None
}

pub fn tab_by_id(workspace: &WorkspaceDump, tab_id: TabId) -> (tab: Option<&TabDump>)
    ensures
        crate::lookup::refers(tab, workspace.tab_of(tab_id)),
        tab is Some ==> tab->0.id == tab_id,
{
    match tab_index(workspace, tab_id) {
        Some(index) => Some(&workspace.tabs[index]),
        None => None,
    }
}

pub fn active_tab(workspace: &WorkspaceDump) -> (tab: Option<&TabDump>)
    ensures
        crate::lookup::refers(tab, workspace.active()),
{
    match workspace.active_tab {
        Some(tab_id) => tab_by_id(workspace, tab_id),
        None => None,
    }
}

pub fn workspace_active_pane(workspace: &WorkspaceDump) -> (pane: Option<PaneId>)
    ensures
        pane == workspace.active_pane(),
{
    match active_tab(workspace) {
        Some(tab) => Some(tab.active_pane),
        None => None,
    }
}

pub fn pane_tree_contains_pane(tree: &PaneTreeDump, pane_id: PaneId) -> (contains: bool)
    ensures
        contains == tree.shows(pane_id),
    decreases tree,
{
    match tree {
        PaneTreeDump::Leaf { pane_id: leaf_id, .. } => *leaf_id == pane_id,
        PaneTreeDump::Split { first, second, .. } => pane_tree_contains_pane(first, pane_id)
            || pane_tree_contains_pane(second, pane_id),
    }
}

pub fn workspace_active_tab_contains_pane(workspace: &WorkspaceDump, pane_id: PaneId) -> (contains:
    bool)
    ensures
        contains == workspace.active_tab_shows(pane_id),
{
    match active_tab(workspace) {
        Some(tab) => pane_tree_contains_pane(&tab.tree, pane_id),
        None => false,
    }
}

pub fn focused_pane_for_workspace(
    snapshot: &ModelSnapshot,
    workspace_id: Option<WorkspaceId>,
    preferred_pane: Option<PaneId>,
) -> (pane: Option<PaneId>)
    ensures
        pane == snapshot.focus_in(workspace_id, preferred_pane),
{
    let workspace_id: WorkspaceId = match workspace_id {
        Some(id) => id,
        None => {
            return None;
        },
    };
    let workspace: &WorkspaceDump = match workspace_dump_for_snapshot(snapshot, workspace_id) {
        Some(workspace) => workspace,
        None => {
            return None;
        },
    };
    if let Some(preferred) = preferred_pane {
        if workspace_active_tab_contains_pane(workspace, preferred) {
            return Some(preferred);
        }
    }
    if let Some(active) = snapshot.active_workspace {
        if active == workspace_id {
            if let Some(focused) = snapshot.focused_pane {
                if workspace_active_tab_contains_pane(workspace, focused) {
                    return Some(focused);
                }
            }
        }
    }
    workspace_active_pane(workspace)
}

pub fn terminal_id_for_pane(tree: &PaneTreeDump, pane_id: PaneId) -> (terminal: Option<TerminalId>)
    ensures
        terminal == tree.terminal_in(pane_id),
    decreases tree,
{
    match tree {
        PaneTreeDump::Leaf { pane_id: leaf_id, surface_state, .. } => {
            if *leaf_id == pane_id {
                match surface_state {
                    SurfaceState::Terminal { terminal_id, .. } => Some(*terminal_id),
                    SurfaceState::Empty => None,
                }
            } else {
                None
            }
        },
        PaneTreeDump::Split { first, second, .. } => {
            match terminal_id_for_pane(first, pane_id) {
                Some(terminal_id) => Some(terminal_id),
                None => terminal_id_for_pane(second, pane_id),
            }
        },
    }
}

/// The terminal that a pane shows, in any tab of a workspace.
pub fn terminal_id_in_workspace(workspace: &WorkspaceDump, pane_id: PaneId) -> (terminal: Option<
    TerminalId,
>)
    ensures
        terminal == terminal_in_tabs(workspace.tabs@, pane_id),
{
    let mut i: usize = 0;
    while i < workspace.tabs.len()
        invariant
            i <= workspace.tabs.len(),
            terminal_in_tabs(workspace.tabs@.take(i as int), pane_id) is None,
        decreases workspace.tabs.len() - i,
    {
        proof {
            lemma_terminal_in_tabs_prefix(workspace.tabs@, pane_id, i + 1);
            assert(workspace.tabs@.take(i + 1).drop_last() =~= workspace.tabs@.take(i as int));
        }
        if let Some(terminal_id) = terminal_id_for_pane(&workspace.tabs[i].tree, pane_id) {
            return Some(terminal_id);
        }
        i += 1;
    }
    assert(workspace.tabs@.take(i as int) =~= workspace.tabs@);
    None
}

proof fn lemma_terminal_in_tabs_prefix(tabs: Seq<TabDump>, pane_id: PaneId, count: int)
    requires
        0 <= count <= tabs.len(),
    ensures
        terminal_in_tabs(tabs.take(count), pane_id) is Some ==> terminal_in_tabs(tabs, pane_id)
            == terminal_in_tabs(tabs.take(count), pane_id),
    decreases tabs.len(),
{
    if count == tabs.len() {
        assert(tabs.take(count) =~= tabs);
    } else {
        lemma_terminal_in_tabs_prefix(tabs.drop_last(), pane_id, count);
        assert(tabs.drop_last().take(count) =~= tabs.take(count));
    }
}

proof fn lemma_terminal_in_workspaces_prefix(
    workspaces: Seq<WorkspaceDump>,
    pane_id: PaneId,
    count: int,
)
    requires
        0 <= count <= workspaces.len(),
    ensures
        terminal_in_workspaces(workspaces.take(count), pane_id) is Some ==> terminal_in_workspaces(
            workspaces,
            pane_id,
        ) == terminal_in_workspaces(workspaces.take(count), pane_id),
    decreases workspaces.len(),
{
    if count == workspaces.len() {
        assert(workspaces.take(count) =~= workspaces);
    } else {
        lemma_terminal_in_workspaces_prefix(workspaces.drop_last(), pane_id, count);
        assert(workspaces.drop_last().take(count) =~= workspaces.take(count));
    }
}

/// The terminal that a pane shows, in any tab of any workspace.
pub fn terminal_id_in_snapshot(snapshot: &ModelSnapshot, pane_id: PaneId) -> (terminal: Option<
    TerminalId,
>)
    ensures
        terminal == snapshot.terminal_in(pane_id),
{
    let ghost shown = snapshot.shown();
    let count: usize = shown_workspace_count(snapshot);
    let mut i: usize = 0;
    while i < count
        invariant
            i <= count,
            shown == snapshot.shown(),
            count == shown.len(),
            terminal_in_workspaces(shown.take(i as int), pane_id) is None,
        decreases count - i,
    {
        proof {
            lemma_terminal_in_workspaces_prefix(shown, pane_id, i + 1);
            assert(shown.take(i + 1).drop_last() =~= shown.take(i as int));
        }
        if let Some(terminal_id) = terminal_id_in_workspace(shown_workspace(snapshot, i), pane_id) {
            return Some(terminal_id);
        }
        i += 1;
    }
    assert(shown.take(i as int) =~= shown);
    None
}

pub fn terminal_projection_for_id(tree: &PaneTreeDump, terminal_id: TerminalId) -> (projection:
    Option<TerminalProjection>)
    ensures
        projection == tree.projection_of(terminal_id),
    decreases tree,
{
    match tree {
        PaneTreeDump::Leaf { surface_state, terminal, .. } => {
            match surface_state {
                SurfaceState::Terminal { terminal_id: shown, .. } => {
                    if *shown == terminal_id {
                        *terminal
                    } else {
                        None
                    }
                },
                SurfaceState::Empty => None,
            }
        },
        PaneTreeDump::Split { first, second, .. } => {
            match terminal_projection_for_id(first, terminal_id) {
                Some(projection) => Some(projection),
                None => terminal_projection_for_id(second, terminal_id),
            }
        },
    }
}

proof fn lemma_projection_in_tabs_prefix(tabs: Seq<TabDump>, terminal_id: TerminalId, count: int)
    requires
        0 <= count <= tabs.len(),
    ensures
        projection_in_tabs(tabs.take(count), terminal_id) is Some ==> projection_in_tabs(
            tabs,
            terminal_id,
        ) == projection_in_tabs(tabs.take(count), terminal_id),
    decreases tabs.len(),
{
    if count == tabs.len() {
        assert(tabs.take(count) =~= tabs);
    } else {
        lemma_projection_in_tabs_prefix(tabs.drop_last(), terminal_id, count);
        assert(tabs.drop_last().take(count) =~= tabs.take(count));
    }
}

proof fn lemma_projection_in_workspaces_prefix(
    workspaces: Seq<WorkspaceDump>,
    terminal_id: TerminalId,
    count: int,
)
    requires
        0 <= count <= workspaces.len(),
    ensures
        projection_in_workspaces(workspaces.take(count), terminal_id) is Some
            ==> projection_in_workspaces(workspaces, terminal_id) == projection_in_workspaces(
            workspaces.take(count),
            terminal_id,
        ),
    decreases workspaces.len(),
{
    if count == workspaces.len() {
        assert(workspaces.take(count) =~= workspaces);
    } else {
        lemma_projection_in_workspaces_prefix(workspaces.drop_last(), terminal_id, count);
        assert(workspaces.drop_last().take(count) =~= workspaces.take(count));
    }
}

fn projection_in_workspace(workspace: &WorkspaceDump, terminal_id: TerminalId) -> (projection: Option<
    TerminalProjection,
>)
    ensures
        projection == projection_in_tabs(workspace.tabs@, terminal_id),
{
    let mut i: usize = 0;
    while i < workspace.tabs.len()
        invariant
            i <= workspace.tabs.len(),
            projection_in_tabs(workspace.tabs@.take(i as int), terminal_id) is None,
        decreases workspace.tabs.len() - i,
    {
        proof {
            lemma_projection_in_tabs_prefix(workspace.tabs@, terminal_id, i + 1);
            assert(workspace.tabs@.take(i + 1).drop_last() =~= workspace.tabs@.take(i as int));
        }
        if let Some(projection) = terminal_projection_for_id(&workspace.tabs[i].tree, terminal_id) {
            return Some(projection);
        }
        i += 1;
    }
    assert(workspace.tabs@.take(i as int) =~= workspace.tabs@);
    None
}

/// The projection of a terminal, wherever it is shown.
pub fn terminal_projection_in_snapshot(snapshot: &ModelSnapshot, terminal_id: TerminalId) -> (projection:
    Option<TerminalProjection>)
    ensures
        projection == snapshot.projection_of(terminal_id),
{
    let ghost shown = snapshot.shown();
    let count: usize = shown_workspace_count(snapshot);
    let mut i: usize = 0;
    while i < count
        invariant
            i <= count,
            shown == snapshot.shown(),
            count == shown.len(),
            projection_in_workspaces(shown.take(i as int), terminal_id) is None,
        decreases count - i,
    {
        proof {
            lemma_projection_in_workspaces_prefix(shown, terminal_id, i + 1);
            assert(shown.take(i + 1).drop_last() =~= shown.take(i as int));
        }
        if let Some(projection) = projection_in_workspace(
            shown_workspace(snapshot, i),
            terminal_id,
        ) {
            return Some(projection);
        }
        i += 1;
    }
    assert(shown.take(i as int) =~= shown);
    None
}

/// Adds the terminals that a tree projects.
pub fn collect_terminal_ids(tree: &PaneTreeDump, terminal_ids: &mut BTreeSet<u128>)
    ensures
        final(terminal_ids)@ == old(terminal_ids)@.union(tree.terminals()),
    decreases tree,
{
    match tree {
        PaneTreeDump::Leaf { terminal, .. } => {
            if let Some(projection) = terminal {
                terminal_ids.insert(projection.terminal_id.raw);
            }
            assert(terminal_ids@ =~= old(terminal_ids)@.union(tree.terminals()));
        },
        PaneTreeDump::Split { first, second, .. } => {
            collect_terminal_ids(first, terminal_ids);
            collect_terminal_ids(second, terminal_ids);
            assert(terminal_ids@ =~= old(terminal_ids)@.union(tree.terminals()));
        },
    }
}

/// A split as it is found in a tree.
pub open spec fn is_split(
    split: Option<(SplitAxis, u32, &PaneTreeDump, &PaneTreeDump)>,
    expected: Option<(SplitAxis, u32, PaneTreeDump, PaneTreeDump)>,
) -> bool {
    match split {
        Some((axis, ratio, first, second)) => expected == Some((axis, ratio, *first, *second)),
        None => expected is None,
    }
}

/// The split at a path: its axis, its ratio and its two parts.
pub fn pane_split_at_path<'a>(tree: &'a PaneTreeDump, path: &Vec<bool>) -> (split: Option<
    (SplitAxis, u32, &'a PaneTreeDump, &'a PaneTreeDump),
>)
    ensures
        is_split(split, tree.split_at(path@)),
{
    assert(path@.skip(0) =~= path@);
    pane_split_below(tree, path, 0)
}

fn pane_split_below<'a>(tree: &'a PaneTreeDump, path: &Vec<bool>, from: usize) -> (split: Option<
    (SplitAxis, u32, &'a PaneTreeDump, &'a PaneTreeDump),
>)
    requires
        from <= path.len(),
    ensures
        is_split(split, tree.split_at(path@.skip(from as int))),
    decreases path.len() - from,
{
    match tree {
        PaneTreeDump::Leaf { .. } => None,
        PaneTreeDump::Split { axis, ratio, first, second } => {
            if from == path.len() {
                Some((*axis, *ratio, first, second))
            } else {
                assert(path@.skip(from as int).drop_first() =~= path@.skip(from + 1));
                if path[from] {
                    pane_split_below(second, path, from + 1)
                } else {
                    pane_split_below(first, path, from + 1)
                }
            }
        },
    }
}

/// The agent in a pane.
pub fn agent_by_pane_id(snapshot: &ModelSnapshot, pane_id: PaneId) -> (agent: Option<&AgentDump>)
    ensures
        crate::lookup::refers(agent, snapshot.agent_in(pane_id)),
{
    let ghost property = agent_is_in(pane_id);
    let mut i: usize = 0;
    while i < snapshot.agents.len()
        invariant
            i <= snapshot.agents.len(),
            property == agent_is_in(pane_id),
            forall|j: int| 0 <= j < i ==> !property(#[trigger] snapshot.agents@[j]),
        decreases snapshot.agents.len() - i,
    {
        if snapshot.agents[i].pane_id == pane_id {
            proof {
                crate::lookup::lemma_is_first(snapshot.agents@, property, i as int);
            }
            return Some(&snapshot.agents[i]);
        }
        i += 1;
    }
    proof {
        crate::lookup::lemma_none_is_first(snapshot.agents@, property);
    }
    None
}

/// A server runs Pi in a pane.
pub open spec fn pi_runs_in(snapshot: ModelSnapshot, pane_id: PaneId) -> bool {
    match snapshot.agent_in(pane_id) {
        Some(agent) => agent.kind == AgentKind::Pi && agent.runs(),
        None => false,
    }
}

/// A server runs Pi in a terminal.
pub open spec fn pi_runs_on(snapshot: ModelSnapshot, terminal_id: TerminalId) -> bool {
    exists|i: int|
        0 <= i < snapshot.agents.len() && (#[trigger] snapshot.agents@[i]).terminal_id
            == terminal_id && snapshot.agents@[i].kind == AgentKind::Pi && snapshot.agents@[i].runs()
}

pub fn pi_agent_running_for_pane(snapshot: &ModelSnapshot, pane_id: PaneId) -> (running: bool)
    ensures
        running == pi_runs_in(*snapshot, pane_id),
{
    match agent_by_pane_id(snapshot, pane_id) {
        Some(agent) => agent.kind == AgentKind::Pi && agent.status == TerminalStatus::Running,
        None => false,
    }
}

pub fn pi_agent_running_for_terminal(snapshot: &ModelSnapshot, terminal_id: TerminalId) -> (running:
    bool)
    ensures
        running == pi_runs_on(*snapshot, terminal_id),
{
    let mut i: usize = 0;
    while i < snapshot.agents.len()
        invariant
            i <= snapshot.agents.len(),
            forall|j: int|
                0 <= j < i ==> !((#[trigger] snapshot.agents@[j]).terminal_id == terminal_id
                    && snapshot.agents@[j].kind == AgentKind::Pi && snapshot.agents@[j].runs()),
        decreases snapshot.agents.len() - i,
    {
        let agent = &snapshot.agents[i];
        if agent.terminal_id == terminal_id && agent.kind == AgentKind::Pi && agent.status
            == TerminalStatus::Running {
            assert(snapshot.agents@[i as int].runs());
            return true;
        }
        i += 1;
    }
    false
}

/// The pane that gets the focus is shown: it lies in the active tab of the
/// workspace, or is the pane that this tab names as active.
pub proof fn law_focus_stays_in_the_active_tab(
    snapshot: ModelSnapshot,
    workspace_id: WorkspaceId,
    preferred: Option<PaneId>,
)
    requires
        snapshot.focus_in(Some(workspace_id), preferred) is Some,
    ensures
        snapshot.has_workspace(workspace_id),
        ({
            let workspace = snapshot.workspace_of(workspace_id)->0;
            let pane = snapshot.focus_in(Some(workspace_id), preferred)->0;
            workspace.active_tab_shows(pane) || workspace.active_pane() == Some(pane)
        }),
{
}

/// The workspace that a window shows exists whenever the server has any, and a
/// choice that still exists is kept.
pub proof fn law_selection_is_kept_or_falls_back(
    snapshot: ModelSnapshot,
    selected: Option<WorkspaceId>,
)
    ensures
        snapshot.selection_after(selected) is Some <==> snapshot.shown().len() > 0,
        snapshot.selection_after(selected) is Some ==> snapshot.has_workspace(
            snapshot.selection_after(selected)->0,
        ),
        selected is Some && snapshot.has_workspace(selected->0) ==> snapshot.selection_after(
            selected,
        ) == selected,
        snapshot.selection_after(snapshot.selection_after(selected)) == snapshot.selection_after(
            selected,
        ),
{
    let shown = snapshot.shown();
    if shown.len() > 0 {
        let first = workspace_has_id(shown[0].id);
        crate::lookup::lemma_is_first(shown, first, 0);
    } else {
        if selected is Some {
            crate::lookup::lemma_none_is_first(shown, workspace_has_id(selected->0));
        }
        if snapshot.active_workspace is Some {
            crate::lookup::lemma_none_is_first(
                shown,
                workspace_has_id(snapshot.active_workspace->0),
            );
        }
    }
}

/// A workspace, a tab or an agent is found by its name: the first that has it.
pub proof fn law_items_are_found_by_their_name(
    snapshot: ModelSnapshot,
    workspace: WorkspaceDump,
    index: int,
)
    ensures
        0 <= index < snapshot.shown().len() && (forall|j: int|
            0 <= j < index ==> (#[trigger] snapshot.shown()[j]).id != snapshot.shown()[index].id)
            ==> snapshot.workspace_of(snapshot.shown()[index].id) == Some(snapshot.shown()[index]),
        0 <= index < workspace.tabs.len() && (forall|j: int|
            0 <= j < index ==> (#[trigger] workspace.tabs@[j]).id != workspace.tabs@[index].id)
            ==> workspace.tab_of(workspace.tabs@[index].id) == Some(workspace.tabs@[index])
            && workspace.tab_index(workspace.tabs@[index].id) == Some(index),
        0 <= index < snapshot.agents.len() && (forall|j: int|
            0 <= j < index ==> (#[trigger] snapshot.agents@[j]).pane_id
                != snapshot.agents@[index].pane_id) ==> snapshot.agent_in(
            snapshot.agents@[index].pane_id,
        ) == Some(snapshot.agents@[index]),
{
    if 0 <= index < snapshot.shown().len() && (forall|j: int|
        0 <= j < index ==> (#[trigger] snapshot.shown()[j]).id != snapshot.shown()[index].id) {
        crate::lookup::lemma_is_first(
            snapshot.shown(),
            workspace_has_id(snapshot.shown()[index].id),
            index,
        );
    }
    if 0 <= index < workspace.tabs.len() && (forall|j: int|
        0 <= j < index ==> (#[trigger] workspace.tabs@[j]).id != workspace.tabs@[index].id) {
        crate::lookup::lemma_is_first(
            workspace.tabs@,
            tab_has_id(workspace.tabs@[index].id),
            index,
        );
    }
    if 0 <= index < snapshot.agents.len() && (forall|j: int|
        0 <= j < index ==> (#[trigger] snapshot.agents@[j]).pane_id
            != snapshot.agents@[index].pane_id) {
        crate::lookup::lemma_is_first(
            snapshot.agents@,
            agent_is_in(snapshot.agents@[index].pane_id),
            index,
        );
    }
}

/// What is found has the name that was looked for.
pub proof fn law_found_items_have_the_name(
    snapshot: ModelSnapshot,
    workspace: WorkspaceDump,
    workspace_id: WorkspaceId,
    tab_id: TabId,
    pane_id: PaneId,
)
    ensures
        snapshot.workspace_of(workspace_id) matches Some(found) ==> found.id == workspace_id
            && snapshot.shown().contains(found),
        workspace.tab_of(tab_id) matches Some(found) ==> found.id == tab_id
            && workspace.tabs@.contains(found),
        snapshot.agent_in(pane_id) matches Some(found) ==> found.pane_id == pane_id
            && snapshot.agents@.contains(found),
{
    crate::lookup::lemma_first_where(snapshot.shown(), workspace_has_id(workspace_id));
    crate::lookup::lemma_first_where(workspace.tabs@, tab_has_id(tab_id));
    crate::lookup::lemma_first_where(snapshot.agents@, agent_is_in(pane_id));
}

/// The workspaces of a state are those it lists; where it lists none, the one
/// that it names.
pub proof fn law_states_show_their_workspaces(snapshot: ModelSnapshot)
    ensures
        snapshot.workspaces.len() > 0 ==> snapshot.shown() == snapshot.workspaces@,
        snapshot.workspaces.len() == 0 && snapshot.workspace is Some ==> snapshot.shown().len() == 1
            && snapshot.shown()[0] == snapshot.workspace->0,
        snapshot.workspaces.len() == 0 && snapshot.workspace is None ==> snapshot.shown().len()
            == 0,
{
}

/// A workspace is shown through its active tab.
pub proof fn law_the_active_tab_leads(workspace: WorkspaceDump, index: int, pane_id: PaneId)
    requires
        0 <= index < workspace.tabs.len(),
        forall|j: int|
            0 <= j < index ==> (#[trigger] workspace.tabs@[j]).id != workspace.tabs@[index].id,
        workspace.active_tab == Some(workspace.tabs@[index].id),
    ensures
        workspace.active() == Some(workspace.tabs@[index]),
        workspace.active_pane() == Some(workspace.tabs@[index].active_pane),
        workspace.active_tab_shows(pane_id) == workspace.tabs@[index].tree.shows(pane_id),
{
    crate::lookup::lemma_is_first(
        workspace.tabs@,
        tab_has_id(workspace.tabs@[index].id),
        index,
    );
}

/// The part of a tree that a path leads to; each step chooses the second part
/// of a split or the first.
pub open spec fn part_at(tree: PaneTreeDump, path: Seq<bool>) -> Option<PaneTreeDump>
    decreases path.len(),
{
    if path.len() == 0 {
        Some(tree)
    } else {
        match tree {
            PaneTreeDump::Leaf { .. } => None,
            PaneTreeDump::Split { first, second, .. } => part_at(
                if path[0] {
                    *second
                } else {
                    *first
                },
                path.drop_first(),
            ),
        }
    }
}

/// Whether a part is a leaf for a pane.
pub open spec fn is_leaf_of(part: Option<PaneTreeDump>, pane: PaneId) -> bool {
    match part {
        Some(PaneTreeDump::Leaf { pane_id, .. }) => pane_id == pane,
        _ => false,
    }
}

/// Whether a part is a leaf in which a terminal is shown.
pub open spec fn is_leaf_with(part: Option<PaneTreeDump>, pane: PaneId, terminal: TerminalId) -> bool {
    match part {
        Some(
            PaneTreeDump::Leaf {
                pane_id,
                surface_state: SurfaceState::Terminal { terminal_id, .. },
                ..
            },
        ) => pane_id == pane && terminal_id == terminal,
        _ => false,
    }
}

proof fn lemma_one_step(tree: PaneTreeDump, second: bool, path: Seq<bool>)
    ensures
        tree matches PaneTreeDump::Split { first: a, second: b, .. } ==> part_at(
            tree,
            seq![second] + path,
        ) == part_at(
            if second {
                *b
            } else {
                *a
            },
            path,
        ),
{
    assert((seq![second] + path).drop_first() =~= path);
}

/// A tree shows the panes of its leaves.
pub proof fn law_trees_show_their_leaves(tree: PaneTreeDump, pane: PaneId)
    ensures
        tree.shows(pane) <==> exists|path: Seq<bool>| is_leaf_of(#[trigger] part_at(tree, path), pane),
    decreases tree,
{
    match tree {
        PaneTreeDump::Leaf { .. } => {
            if tree.shows(pane) {
                assert(is_leaf_of(part_at(tree, Seq::empty()), pane));
            }
        },
        PaneTreeDump::Split { first, second, .. } => {
            law_trees_show_their_leaves(*first, pane);
            law_trees_show_their_leaves(*second, pane);
            if first.shows(pane) {
                let path = choose|path: Seq<bool>| is_leaf_of(#[trigger] part_at(*first, path), pane);
                lemma_one_step(tree, false, path);
                assert(is_leaf_of(part_at(tree, seq![false] + path), pane));
            }
            if second.shows(pane) {
                let path = choose|path: Seq<bool>|
                    is_leaf_of(#[trigger] part_at(*second, path), pane);
                lemma_one_step(tree, true, path);
                assert(is_leaf_of(part_at(tree, seq![true] + path), pane));
            }
            if exists|path: Seq<bool>| is_leaf_of(#[trigger] part_at(tree, path), pane) {
                let path = choose|path: Seq<bool>| is_leaf_of(#[trigger] part_at(tree, path), pane);
                if path.len() > 0 {
                    if path[0] {
                        assert(is_leaf_of(part_at(*second, path.drop_first()), pane));
                    } else {
                        assert(is_leaf_of(part_at(*first, path.drop_first()), pane));
                    }
                }
            }
        },
    }
}

/// The terminal of a pane is the one in a leaf for that pane; a pane has one
/// wherever such a leaf holds one.
pub proof fn law_panes_have_the_terminals_of_their_leaves(
    tree: PaneTreeDump,
    pane: PaneId,
    path: Seq<bool>,
    terminal: TerminalId,
)
    ensures
        tree.terminal_in(pane) matches Some(found) ==> exists|path: Seq<bool>|
            is_leaf_with(#[trigger] part_at(tree, path), pane, found),
        is_leaf_with(part_at(tree, path), pane, terminal) ==> tree.terminal_in(pane) is Some,
    decreases tree,
{
    match tree {
        PaneTreeDump::Leaf { .. } => {
            if tree.terminal_in(pane) is Some {
                assert(is_leaf_with(
                    part_at(tree, Seq::empty()),
                    pane,
                    tree.terminal_in(pane)->0,
                ));
            }
        },
        PaneTreeDump::Split { first, second, .. } => {
            let rest = if path.len() > 0 {
                path.drop_first()
            } else {
                path
            };
            law_panes_have_the_terminals_of_their_leaves(*first, pane, rest, terminal);
            law_panes_have_the_terminals_of_their_leaves(*second, pane, rest, terminal);
            if first.terminal_in(pane) is Some {
                let found = first.terminal_in(pane)->0;
                let way = choose|way: Seq<bool>|
                    is_leaf_with(#[trigger] part_at(*first, way), pane, found);
                lemma_one_step(tree, false, way);
                assert(is_leaf_with(part_at(tree, seq![false] + way), pane, found));
            } else if second.terminal_in(pane) is Some {
                let found = second.terminal_in(pane)->0;
                let way = choose|way: Seq<bool>|
                    is_leaf_with(#[trigger] part_at(*second, way), pane, found);
                lemma_one_step(tree, true, way);
                assert(is_leaf_with(part_at(tree, seq![true] + way), pane, found));
            }
        },
    }
}

/// A path finds the split that it leads to.
pub proof fn law_paths_lead_to_their_split(tree: PaneTreeDump, path: Seq<bool>)
    ensures
        match part_at(tree, path) {
            Some(PaneTreeDump::Split { axis, ratio, first, second }) => tree.split_at(path) == Some(
                (axis, ratio, *first, *second),
            ),
            _ => tree.split_at(path) is None,
        },
    decreases path.len(),
{
    match tree {
        PaneTreeDump::Leaf { .. } => {},
        PaneTreeDump::Split { first, second, .. } => {
            if path.len() > 0 {
                law_paths_lead_to_their_split(
                    if path[0] {
                        *second
                    } else {
                        *first
                    },
                    path.drop_first(),
                );
            }
        },
    }
}

/// Whether a part is a leaf that projects a terminal.
pub open spec fn projects_in_leaf(part: Option<PaneTreeDump>, terminal: u128) -> bool {
    match part {
        Some(PaneTreeDump::Leaf { terminal: Some(projection), .. }) => projection.terminal_id.raw
            == terminal,
        _ => false,
    }
}

/// The terminals of a tree are those that its leaves project.
pub proof fn law_trees_hold_the_terminals_of_their_leaves(tree: PaneTreeDump, terminal: u128)
    ensures
        tree.terminals().contains(terminal) <==> exists|path: Seq<bool>|
            projects_in_leaf(#[trigger] part_at(tree, path), terminal),
    decreases tree,
{
    match tree {
        PaneTreeDump::Leaf { .. } => {
            if tree.terminals().contains(terminal) {
                assert(projects_in_leaf(part_at(tree, Seq::empty()), terminal));
            }
        },
        PaneTreeDump::Split { first, second, .. } => {
            law_trees_hold_the_terminals_of_their_leaves(*first, terminal);
            law_trees_hold_the_terminals_of_their_leaves(*second, terminal);
            if first.terminals().contains(terminal) {
                let path = choose|path: Seq<bool>|
                    projects_in_leaf(#[trigger] part_at(*first, path), terminal);
                lemma_one_step(tree, false, path);
                assert(projects_in_leaf(part_at(tree, seq![false] + path), terminal));
            }
            if second.terminals().contains(terminal) {
                let path = choose|path: Seq<bool>|
                    projects_in_leaf(#[trigger] part_at(*second, path), terminal);
                lemma_one_step(tree, true, path);
                assert(projects_in_leaf(part_at(tree, seq![true] + path), terminal));
            }
            if exists|path: Seq<bool>| projects_in_leaf(#[trigger] part_at(tree, path), terminal) {
                let path = choose|path: Seq<bool>|
                    projects_in_leaf(#[trigger] part_at(tree, path), terminal);
                if path.len() > 0 {
                    if path[0] {
                        assert(projects_in_leaf(part_at(*second, path.drop_first()), terminal));
                    } else {
                        assert(projects_in_leaf(part_at(*first, path.drop_first()), terminal));
                    }
                }
            }
        },
    }
}

/// A terminal in the first tab or workspace that shows the pane is the pane's.
pub proof fn law_earlier_tabs_come_first(
    tabs: Seq<TabDump>,
    workspaces: Seq<WorkspaceDump>,
    pane_id: PaneId,
    index: int,
)
    ensures
        0 <= index < tabs.len() && tabs[index].tree.terminal_in(pane_id) is Some && (forall|j: int|
            0 <= j < index ==> (#[trigger] tabs[j]).tree.terminal_in(pane_id) is None)
            ==> terminal_in_tabs(tabs, pane_id) == tabs[index].tree.terminal_in(pane_id),
        (forall|j: int|
            0 <= j < tabs.len() ==> (#[trigger] tabs[j]).tree.terminal_in(pane_id) is None)
            ==> terminal_in_tabs(tabs, pane_id) is None,
        0 <= index < workspaces.len() && terminal_in_tabs(workspaces[index].tabs@, pane_id) is Some
            && (forall|j: int|
            0 <= j < index ==> terminal_in_tabs(
                (#[trigger] workspaces[j]).tabs@,
                pane_id,
            ) is None) ==> terminal_in_workspaces(workspaces, pane_id) == terminal_in_tabs(
            workspaces[index].tabs@,
            pane_id,
        ),
        (forall|j: int|
            0 <= j < workspaces.len() ==> terminal_in_tabs(
                (#[trigger] workspaces[j]).tabs@,
                pane_id,
            ) is None) ==> terminal_in_workspaces(workspaces, pane_id) is None,
    decreases tabs.len() + workspaces.len(),
{
    if tabs.len() > 0 || workspaces.len() > 0 {
        let fewer_tabs = if tabs.len() > 0 {
            tabs.drop_last()
        } else {
            tabs
        };
        let fewer = if workspaces.len() > 0 {
            workspaces.drop_last()
        } else {
            workspaces
        };
        assert forall|j: int| 0 <= j < fewer_tabs.len() implies #[trigger] fewer_tabs[j]
            == tabs[j] by {}
        assert forall|j: int| 0 <= j < fewer.len() implies #[trigger] fewer[j]
            == workspaces[j] by {}
        law_earlier_tabs_come_first(fewer_tabs, fewer, pane_id, index);
    }
}

/// The agent that keeps its own screen is told by its kind while it runs.
pub proof fn law_running_agents_keep_their_screen(
    snapshot: ModelSnapshot,
    agent: AgentDump,
    index: int,
)
    ensures
        snapshot.agent_in(agent.pane_id) == Some(agent) ==> pi_runs_in(snapshot, agent.pane_id) == (
        agent.kind == AgentKind::Pi && agent.status == TerminalStatus::Running),
        0 <= index < snapshot.agents.len() && snapshot.agents@[index].kind == AgentKind::Pi
            && snapshot.agents@[index].status == TerminalStatus::Running ==> pi_runs_on(
            snapshot,
            snapshot.agents@[index].terminal_id,
        ),
{
}

/// Whether a part is a leaf in which a terminal is shown through a projection.
pub open spec fn is_leaf_through(
    part: Option<PaneTreeDump>,
    terminal: TerminalId,
    through: TerminalProjection,
) -> bool {
    match part {
        Some(
            PaneTreeDump::Leaf {
                surface_state: SurfaceState::Terminal { terminal_id, .. },
                terminal: Some(projection),
                ..
            },
        ) => terminal_id == terminal && projection == through,
        _ => false,
    }
}

/// A terminal is projected by a leaf that shows it.
pub proof fn law_terminals_are_projected_by_their_leaves(
    tree: PaneTreeDump,
    terminal: TerminalId,
    path: Seq<bool>,
    projection: TerminalProjection,
)
    ensures
        tree.projection_of(terminal) matches Some(found) ==> exists|path: Seq<bool>|
            is_leaf_through(#[trigger] part_at(tree, path), terminal, found),
        is_leaf_through(part_at(tree, path), terminal, projection) ==> tree.projection_of(
            terminal,
        ) is Some,
    decreases tree,
{
    match tree {
        PaneTreeDump::Leaf { .. } => {
            if tree.projection_of(terminal) is Some {
                assert(is_leaf_through(
                    part_at(tree, Seq::empty()),
                    terminal,
                    tree.projection_of(terminal)->0,
                ));
            }
        },
        PaneTreeDump::Split { first, second, .. } => {
            let rest = if path.len() > 0 {
                path.drop_first()
            } else {
                path
            };
            law_terminals_are_projected_by_their_leaves(*first, terminal, rest, projection);
            law_terminals_are_projected_by_their_leaves(*second, terminal, rest, projection);
            if first.projection_of(terminal) is Some {
                let found = first.projection_of(terminal)->0;
                let way = choose|way: Seq<bool>|
                    is_leaf_through(#[trigger] part_at(*first, way), terminal, found);
                lemma_one_step(tree, false, way);
                assert(is_leaf_through(part_at(tree, seq![false] + way), terminal, found));
            } else if second.projection_of(terminal) is Some {
                let found = second.projection_of(terminal)->0;
                let way = choose|way: Seq<bool>|
                    is_leaf_through(#[trigger] part_at(*second, way), terminal, found);
                lemma_one_step(tree, true, way);
                assert(is_leaf_through(part_at(tree, seq![true] + way), terminal, found));
            }
        },
    }
}

/// A terminal that some tab projects is projected by the workspaces together.
pub proof fn law_states_project_what_their_tabs_do(
    workspaces: Seq<WorkspaceDump>,
    terminal_id: TerminalId,
    place: int,
    index: int,
)
    ensures
        0 <= place < workspaces.len() && 0 <= index < workspaces[place].tabs.len()
            && workspaces[place].tabs@[index].tree.projection_of(terminal_id) is Some
            ==> projection_in_workspaces(workspaces, terminal_id) is Some,
    decreases workspaces.len(),
{
    if 0 <= place < workspaces.len() && 0 <= index < workspaces[place].tabs.len()
        && workspaces[place].tabs@[index].tree.projection_of(terminal_id) is Some {
        if place == workspaces.len() - 1 {
            lemma_tabs_project(workspaces[place].tabs@, terminal_id, index);
        } else {
            assert(workspaces.drop_last()[place] == workspaces[place]);
            law_states_project_what_their_tabs_do(
                workspaces.drop_last(),
                terminal_id,
                place,
                index,
            );
        }
    }
}

proof fn lemma_tabs_project(tabs: Seq<TabDump>, terminal_id: TerminalId, index: int)
    requires
        0 <= index < tabs.len(),
        tabs[index].tree.projection_of(terminal_id) is Some,
    ensures
        projection_in_tabs(tabs, terminal_id) is Some,
    decreases tabs.len(),
{
    if index < tabs.len() - 1 {
        assert(tabs.drop_last()[index] == tabs[index]);
        lemma_tabs_project(tabs.drop_last(), terminal_id, index);
    }
}

/// A window that has chosen no workspace, or one that is gone, shows the one
/// that is active on the server, and without such a one the first.
pub proof fn law_the_active_workspace_comes_before_the_first(
    snapshot: ModelSnapshot,
    selected: Option<WorkspaceId>,
)
    requires
        selected is None || !snapshot.has_workspace(selected->0),
    ensures
        snapshot.active_workspace is Some && snapshot.has_workspace(snapshot.active_workspace->0)
            ==> snapshot.selection_after(selected) == snapshot.active_workspace,
        (snapshot.active_workspace is None || !snapshot.has_workspace(
            snapshot.active_workspace->0,
        )) && snapshot.shown().len() > 0 ==> snapshot.selection_after(selected) == Some(
            snapshot.shown()[0].id,
        ),
{
}

/// The focus goes to the pane that is preferred, where the active tab shows it;
/// else to the one that the server focuses, where the workspace is the active
/// one there and its tab shows it; else to the pane of the active tab.
pub proof fn law_the_focus_prefers_what_it_had(
    snapshot: ModelSnapshot,
    workspace: WorkspaceDump,
    preferred: PaneId,
    remote: PaneId,
)
    requires
        snapshot.workspace_of(workspace.id) == Some(workspace),
    ensures
        ({
            let id = Some(workspace.id);
            let follows = snapshot.active_workspace == id && snapshot.focused_pane == Some(remote)
                && workspace.active_tab_shows(remote);
            &&& workspace.active_tab_shows(preferred) ==> snapshot.focus_in(id, Some(preferred))
                == Some(preferred)
            &&& !workspace.active_tab_shows(preferred) && follows ==> snapshot.focus_in(
                id,
                Some(preferred),
            ) == Some(remote)
            &&& follows ==> snapshot.focus_in(id, None) == Some(remote)
            &&& snapshot.active_workspace != id || snapshot.focused_pane is None
                ==> snapshot.focus_in(id, None) == workspace.active_pane()
            &&& !workspace.active_tab_shows(preferred) && (snapshot.active_workspace != id
                || snapshot.focused_pane is None) ==> snapshot.focus_in(id, Some(preferred))
                == workspace.active_pane()
            &&& snapshot.focus_in(None, Some(preferred)) is None
        }),
{
}

} // verus!
