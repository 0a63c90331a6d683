//! The state of a window.
//!
//! A window shows one connection at a time. Which workspace it shows and which
//! pane has the focus belong to the window; what there is belongs to the
//! server. Methods change the state and append what has to happen outside.

use crate::command::AppCommand;
use crate::command::Effect;
use crate::field::TextField;
use crate::ids::ConnectionId;
use crate::ids::PaneId;
use crate::ids::TabId;
use crate::ids::TerminalId;
use crate::ids::TransportId;
use crate::ids::WorkspaceId;
use crate::ime::ImeState;
use crate::model::focused_pane_for_workspace;
use crate::model::workspace_selection_after_snapshot;
use crate::model::ModelSnapshot;
use crate::model::SplitAxis;
use crate::mouse::MouseButton;
use crate::offset::RowOffset;
use crate::resize::TerminalResizeRequest;
use crate::scroll::TerminalScrollState;
use crate::selection::TerminalCellPosition;
use crate::selection::TerminalSelection;
use crate::terminal::share;
use crate::terminal::TerminalSnapshot;
use std::collections::BTreeMap;
use std::collections::BTreeSet;
use std::sync::Arc;
use vstd::prelude::*;

verus! {

#[derive(Clone, Copy, PartialEq, Eq, Structural, Debug)]
pub enum WorkspaceConnectionKind {
    Local,
    Remote,
}

/// A server and its latest state.
#[derive(Debug)]
pub struct WorkspaceConnection {
    pub id: ConnectionId,
    pub title: String,
    pub kind: WorkspaceConnectionKind,
    pub client: TransportId,
    pub snapshot: Arc<ModelSnapshot>,
}

/// The settings that the decisions of a window depend on.
#[derive(Clone, Copy, PartialEq, Eq, Structural, Debug)]
pub struct ViewConfig {
    pub mouse_reporting: bool,
    pub selection: bool,
    pub bracketed_paste: bool,
    pub sidebar_visible: bool,
    pub sidebar_show_agent_count: bool,
    /// Bits of the width.
    pub sidebar_width: u32,
}

/// A point of the window, as the bits of its coordinates.
#[derive(Clone, Copy, PartialEq, Eq, Structural, Debug)]
pub struct PointerPosition {
    pub x: u32,
    pub y: u32,
}

/// What is being renamed in place.
#[derive(Clone, Copy, PartialEq, Eq, Structural, Debug)]
pub enum RenameTarget {
    Tab { tab_id: TabId },
    Agent { connection_id: ConnectionId, pane_id: PaneId },
}

#[derive(Clone, Copy, PartialEq, Eq, Structural, Debug)]
pub enum ContextMenuTarget {
    Connection { connection_id: ConnectionId },
    Workspace { connection_id: ConnectionId, workspace_id: WorkspaceId },
    Tab { tab_id: TabId },
    Agent { connection_id: ConnectionId, pane_id: PaneId },
}

#[derive(Clone, Copy, PartialEq, Eq, Structural, Debug)]
pub struct ContextMenuState {
    pub target: ContextMenuTarget,
    pub position: PointerPosition,
}

#[derive(Clone, Copy, PartialEq, Eq, Structural, Debug)]
pub enum SidebarDragSource {
    Workspace { workspace_id: WorkspaceId },
    Agent { pane_id: PaneId, workspace_id: WorkspaceId },
}

#[derive(Clone, Copy, PartialEq, Eq, Structural, Debug)]
pub struct SidebarDrag {
    pub source: SidebarDragSource,
    pub start: PointerPosition,
    /// The pointer moved far enough for a drag.
    pub active: bool,
}

/// Where a dragged row would be dropped; `y` holds the bits of the height at
/// which this is shown.
#[derive(Clone, Copy, PartialEq, Eq, Structural, Debug)]
pub enum SidebarDropPreview {
    Workspace { y: u32, index: usize },
    Agent { y: u32, target_workspace_id: WorkspaceId },
}

/// The extent of a split along its axis, as bits.
#[derive(Clone, Copy, PartialEq, Eq, Structural, Debug)]
pub struct SplitRect {
    pub origin: u32,
    pub extent: u32,
}

/// A divider under drag. Ratios are bits of the share of the first part.
#[derive(Debug)]
pub struct SplitDrag {
    pub tab_id: TabId,
    pub path: Vec<bool>,
    pub axis: SplitAxis,
    pub rect: SplitRect,
    pub start: u32,
    pub start_ratio: u32,
    pub preview_ratio: Option<u32>,
}

#[verifier::ext_equal]
pub struct SplitDragModel {
    pub tab_id: TabId,
    pub path: Seq<bool>,
    pub axis: SplitAxis,
    pub rect: SplitRect,
    pub start: u32,
    pub start_ratio: u32,
    pub preview_ratio: Option<u32>,
}

impl View for SplitDrag {
    type V = SplitDragModel;

    open spec fn view(&self) -> SplitDragModel {
        SplitDragModel {
            tab_id: self.tab_id,
            path: self.path@,
            axis: self.axis,
            rect: self.rect,
            start: self.start,
            start_ratio: self.start_ratio,
            preview_ratio: self.preview_ratio,
        }
    }
}

/// A dialog that is open.
#[derive(Clone, Copy, PartialEq, Eq, Structural, Debug)]
pub enum DialogState {
    ConfirmCloseWorkspace { workspace_id: WorkspaceId },
    ConnectRemote,
    RenameWorkspace { connection_id: ConnectionId, workspace_id: WorkspaceId },
}

/// A wheel movement that is still being played.
#[derive(Clone, Copy, PartialEq, Eq, Structural, Debug)]
pub struct MouseScrollAnimation {
    pub pane_id: PaneId,
    pub start_position: RowOffset,
    pub target_position: RowOffset,
    /// Reading of a clock.
    pub started_at: u64,
}

/// A selection dragged to the edge of its terminal.
#[derive(Clone, Copy, PartialEq, Eq, Structural, Debug)]
pub struct SelectionAutoscroll {
    pub terminal_id: TerminalId,
    pub position: PointerPosition,
}

/// What moves the terminals of a window.
#[derive(Debug)]
pub struct ScrollingState {
    pub scroll_accumulators: BTreeMap<u128, TerminalScrollState>,
    /// Terminals over which fingers are moving.
    pub active_trackpad_scrolls: BTreeSet<u128>,
    /// Positions to ask for with the next frame.
    pub pending_viewport_requests: BTreeMap<u128, (PaneId, i64)>,
    pub viewport_request_frame_pending: bool,
    pub mouse_scroll_animations: BTreeMap<u128, MouseScrollAnimation>,
    pub mouse_scroll_frame_pending: bool,
}

#[verifier::ext_equal]
pub struct ScrollingModel {
    pub scroll_accumulators: Map<u128, TerminalScrollState>,
    pub active_trackpad_scrolls: Set<u128>,
    pub pending_viewport_requests: Map<u128, (PaneId, i64)>,
    pub viewport_request_frame_pending: bool,
    pub mouse_scroll_animations: Map<u128, MouseScrollAnimation>,
    pub mouse_scroll_frame_pending: bool,
}

impl View for ScrollingState {
    type V = ScrollingModel;

    open spec fn view(&self) -> ScrollingModel {
        ScrollingModel {
            scroll_accumulators: self.scroll_accumulators@,
            active_trackpad_scrolls: self.active_trackpad_scrolls@,
            pending_viewport_requests: self.pending_viewport_requests@,
            viewport_request_frame_pending: self.viewport_request_frame_pending,
            mouse_scroll_animations: self.mouse_scroll_animations@,
            mouse_scroll_frame_pending: self.mouse_scroll_frame_pending,
        }
    }
}

impl ScrollingModel {
    pub open spec fn idle() -> Self {
        ScrollingModel {
            scroll_accumulators: Map::empty(),
            active_trackpad_scrolls: Set::empty(),
            pending_viewport_requests: Map::empty(),
            viewport_request_frame_pending: false,
            mouse_scroll_animations: Map::empty(),
            mouse_scroll_frame_pending: false,
        }
    }
}

/// What the mouse has hold of.
#[derive(Debug)]
pub struct PressState {
    pub selection_autoscroll: Option<SelectionAutoscroll>,
    pub selection_autoscroll_frame_pending: bool,
    pub dragging_terminal: Option<TerminalId>,
    /// The terminal whose program has got a button.
    pub reported_mouse: Option<(TerminalId, MouseButton)>,
    pub last_reported_mouse_cell: Option<(TerminalId, TerminalCellPosition)>,
    pub window_drag_start: Option<PointerPosition>,
    pub split_drag: Option<SplitDrag>,
    pub titlebar_dragging: bool,
}

#[verifier::ext_equal]
pub struct PressModel {
    pub selection_autoscroll: Option<SelectionAutoscroll>,
    pub selection_autoscroll_frame_pending: bool,
    pub dragging_terminal: Option<TerminalId>,
    pub reported_mouse: Option<(TerminalId, MouseButton)>,
    pub last_reported_mouse_cell: Option<(TerminalId, TerminalCellPosition)>,
    pub window_drag_start: Option<PointerPosition>,
    pub split_drag: Option<SplitDragModel>,
    pub titlebar_dragging: bool,
}

impl View for PressState {
    type V = PressModel;

    open spec fn view(&self) -> PressModel {
        PressModel {
            selection_autoscroll: self.selection_autoscroll,
            selection_autoscroll_frame_pending: self.selection_autoscroll_frame_pending,
            dragging_terminal: self.dragging_terminal,
            reported_mouse: self.reported_mouse,
            last_reported_mouse_cell: self.last_reported_mouse_cell,
            window_drag_start: self.window_drag_start,
            split_drag: split_drag_model(self.split_drag),
            titlebar_dragging: self.titlebar_dragging,
        }
    }
}

impl PressModel {
    pub open spec fn idle() -> Self {
        PressModel {
            selection_autoscroll: None,
            selection_autoscroll_frame_pending: false,
            dragging_terminal: None,
            reported_mouse: None,
            last_reported_mouse_cell: None,
            window_drag_start: None,
            split_drag: None,
            titlebar_dragging: false,
        }
    }
}

/// The sidebar: its size, what is folded, what is dragged.
#[derive(Debug)]
pub struct SidebarState {
    pub sidebar_collapsed: bool,
    pub collapsed_connections: BTreeSet<u64>,
    pub collapsed_workspaces: BTreeSet<(u64, u128)>,
    /// Bits of the width.
    pub sidebar_width: u32,
    pub dragging_sidebar: bool,
    pub sidebar_drag: Option<SidebarDrag>,
    pub sidebar_drop_preview: Option<SidebarDropPreview>,
}

#[verifier::ext_equal]
pub struct SidebarModel {
    pub sidebar_collapsed: bool,
    pub collapsed_connections: Set<u64>,
    pub collapsed_workspaces: Set<(u64, u128)>,
    pub sidebar_width: u32,
    pub dragging_sidebar: bool,
    pub sidebar_drag: Option<SidebarDrag>,
    pub sidebar_drop_preview: Option<SidebarDropPreview>,
}

impl View for SidebarState {
    type V = SidebarModel;

    open spec fn view(&self) -> SidebarModel {
        SidebarModel {
            sidebar_collapsed: self.sidebar_collapsed,
            collapsed_connections: self.collapsed_connections@,
            collapsed_workspaces: self.collapsed_workspaces@,
            sidebar_width: self.sidebar_width,
            dragging_sidebar: self.dragging_sidebar,
            sidebar_drag: self.sidebar_drag,
            sidebar_drop_preview: self.sidebar_drop_preview,
        }
    }
}

impl SidebarModel {
    pub open spec fn configured(config: ViewConfig) -> Self {
        SidebarModel {
            sidebar_collapsed: !config.sidebar_visible,
            collapsed_connections: Set::empty(),
            collapsed_workspaces: Set::empty(),
            sidebar_width: config.sidebar_width,
            dragging_sidebar: false,
            sidebar_drag: None,
            sidebar_drop_preview: None,
        }
    }
}

/// What can be on top of a window.
#[derive(Debug)]
pub struct OverlayState {
    pub rename_target: Option<RenameTarget>,
    pub rename_value: Vec<char>,
    /// The line that the dialogs with a text edit.
    pub field: TextField,
    /// Counts the dialogs with a text, so that a caret stops blinking when its
    /// dialog is gone.
    pub dialog_input_generation: u64,
    pub remote_connection_error: Option<String>,
    pub remote_connection_pending: bool,
    pub context_menu: Option<ContextMenuState>,
    pub dialog: Option<DialogState>,
}

#[verifier::ext_equal]
pub struct OverlayModel {
    pub rename_target: Option<RenameTarget>,
    pub rename_value: Seq<char>,
    pub field: crate::field::FieldModel,
    pub dialog_input_generation: u64,
    pub remote_connection_error: Option<Seq<char>>,
    pub remote_connection_pending: bool,
    pub context_menu: Option<ContextMenuState>,
    pub dialog: Option<DialogState>,
}

impl View for OverlayState {
    type V = OverlayModel;

    open spec fn view(&self) -> OverlayModel {
        OverlayModel {
            rename_target: self.rename_target,
            rename_value: self.rename_value@,
            field: self.field@,
            dialog_input_generation: self.dialog_input_generation,
            remote_connection_error: text_model(self.remote_connection_error),
            remote_connection_pending: self.remote_connection_pending,
            context_menu: self.context_menu,
            dialog: self.dialog,
        }
    }
}

impl OverlayModel {
    pub open spec fn nothing() -> Self {
        OverlayModel {
            rename_target: None,
            rename_value: Seq::empty(),
            field: crate::field::FieldModel::holding(Seq::empty()),
            dialog_input_generation: 0,
            remote_connection_error: None,
            remote_connection_pending: false,
            context_menu: None,
            dialog: None,
        }
    }
}

/// What is remembered of the tab strip.
#[derive(Debug)]
pub struct StripState {
    /// Which tabs the strip held when a state was installed last.
    pub last_tab_strip_signature: (Option<WorkspaceId>, usize),
    /// The tab that the strip brought into view last.
    pub last_revealed_tab: Option<TabId>,
    /// The tab that was asked for and is not active yet.
    pub pending_tab: Option<TabId>,
}

#[verifier::ext_equal]
pub struct StripModel {
    pub last_tab_strip_signature: (Option<WorkspaceId>, nat),
    pub last_revealed_tab: Option<TabId>,
    pub pending_tab: Option<TabId>,
}

impl View for StripState {
    type V = StripModel;

    open spec fn view(&self) -> StripModel {
        StripModel {
            last_tab_strip_signature: (
                self.last_tab_strip_signature.0,
                self.last_tab_strip_signature.1 as nat,
            ),
            last_revealed_tab: self.last_revealed_tab,
            pending_tab: self.pending_tab,
        }
    }
}

/// The state of a window.
pub struct WorkspaceView {
    /// Whether the window belongs to an application that manages connections.
    pub has_application: bool,
    pub connections: Vec<WorkspaceConnection>,
    pub active_connection: ConnectionId,
    /// The channel of the connection that was activated last.
    pub client: TransportId,
    pub snapshot: Arc<ModelSnapshot>,
    pub config: ViewConfig,
    pub resize_requests: BTreeMap<(u64, u128), TerminalResizeRequest>,
    pub input_handler_terminal: Option<TerminalId>,
    pub selected_workspace: Option<WorkspaceId>,
    pub focused_pane: Option<PaneId>,
    pub terminal_snapshots: BTreeMap<u128, Arc<TerminalSnapshot>>,
    pub selection: Option<TerminalSelection>,
    pub ime: ImeState,
    pub scrolling: ScrollingState,
    pub press: PressState,
    pub sidebar: SidebarState,
    pub overlay: OverlayState,
    pub strip: StripState,
    /// What has to happen outside, oldest first.
    pub effects: Vec<Effect>,
}

/// The state of a window with its texts and tables as mathematical values.
#[verifier::ext_equal]
pub struct ViewModel {
    pub has_application: bool,
    pub connections: Seq<WorkspaceConnection>,
    pub active_connection: ConnectionId,
    pub client: TransportId,
    pub snapshot: ModelSnapshot,
    pub config: ViewConfig,
    pub resize_requests: Map<(u64, u128), TerminalResizeRequest>,
    pub input_handler_terminal: Option<TerminalId>,
    pub selected_workspace: Option<WorkspaceId>,
    pub focused_pane: Option<PaneId>,
    pub terminal_snapshots: Map<u128, Arc<TerminalSnapshot>>,
    pub selection: Option<TerminalSelection>,
    pub ime: crate::ime::ImeModel,
    pub scrolling: ScrollingModel,
    pub press: PressModel,
    pub sidebar: SidebarModel,
    pub overlay: OverlayModel,
    pub strip: StripModel,
    pub effects: Seq<crate::command::EffectModel>,
}

/// What effects ask for.
pub open spec fn effect_models(effects: Seq<Effect>) -> Seq<crate::command::EffectModel> {
    effects.map_values(|effect: Effect| effect@)
}

/// The characters of an optional text.
pub open spec fn text_model(text: Option<String>) -> Option<Seq<char>> {
    match text {
        Some(text) => Some(text@),
        None => None,
    }
}

pub open spec fn split_drag_model(drag: Option<SplitDrag>) -> Option<SplitDragModel> {
    match drag {
        Some(drag) => Some(drag@),
        None => None,
    }
}

impl View for WorkspaceView {
    type V = ViewModel;

    open spec fn view(&self) -> ViewModel {
        ViewModel {
            has_application: self.has_application,
            connections: self.connections@,
            active_connection: self.active_connection,
            client: self.client,
            snapshot: *self.snapshot,
            config: self.config,
            resize_requests: self.resize_requests@,
            input_handler_terminal: self.input_handler_terminal,
            selected_workspace: self.selected_workspace,
            focused_pane: self.focused_pane,
            terminal_snapshots: self.terminal_snapshots@,
            selection: self.selection,
            ime: self.ime@,
            scrolling: self.scrolling@,
            press: self.press@,
            sidebar: self.sidebar@,
            overlay: self.overlay@,
            strip: self.strip@,
            effects: effect_models(self.effects@),
        }
    }
}

/// Every grid can be addressed and painted.
#[verifier::opaque]
pub open spec fn grids_are_sound(grids: Map<u128, Arc<TerminalSnapshot>>) -> bool {
    forall|key: u128| #[trigger]
        grids.contains_key(key) ==> grids[key].wf() && crate::scroll::is_paintable(*grids[key])
}

pub open spec fn connection_has_id(id: ConnectionId) -> spec_fn(WorkspaceConnection) -> bool {
    |connection: WorkspaceConnection| connection.id == id
}

impl ViewModel {
    /// The caret is inside its text, behind what is composed in an open dialog,
    /// and every grid at hand can be addressed and painted.
    pub open spec fn wf(self) -> bool {
        &&& self.overlay.field.wf()
        &&& self.edits_text() ==> self.overlay.field.ime_base <= self.overlay.field.caret
        &&& grids_are_sound(self.terminal_snapshots)
    }

    /// With one more thing to happen outside.
    pub open spec fn asking(self, effect: crate::command::EffectModel) -> Self {
        ViewModel { effects: self.effects.push(effect), ..self }
    }

    /// With the window to be drawn again.
    pub open spec fn notified(self) -> Self {
        self.asking(crate::command::EffectModel::Notify)
    }

    pub open spec fn notified_if(self, condition: bool) -> Self {
        if condition {
            self.notified()
        } else {
            self
        }
    }

    pub open spec fn connection(self, id: ConnectionId) -> Option<WorkspaceConnection> {
        crate::lookup::item_where(self.connections, connection_has_id(id))
    }

    pub open spec fn workspace(self, id: WorkspaceId) -> Option<crate::model::WorkspaceDump> {
        self.snapshot.workspace_of(id)
    }

    /// The workspace that the window shows.
    pub open spec fn selected(self) -> Option<crate::model::WorkspaceDump> {
        match self.selected_workspace {
            Some(id) => self.workspace(id),
            None => None,
        }
    }

    /// The workspace of one server; numbers of other servers do not count.
    pub open spec fn workspace_in(
        self,
        connection_id: ConnectionId,
        workspace_id: WorkspaceId,
    ) -> Option<crate::model::WorkspaceDump> {
        match self.connection(connection_id) {
            Some(connection) => connection.snapshot.workspace_of(workspace_id),
            None => None,
        }
    }

    /// The agent in a pane of one server.
    pub open spec fn agent_in(self, connection_id: ConnectionId, pane_id: PaneId) -> Option<
        crate::model::AgentDump,
    > {
        match self.connection(connection_id) {
            Some(connection) => connection.snapshot.agent_in(pane_id),
            None => None,
        }
    }

    /// A tab of the workspace that the window shows.
    pub open spec fn tab(self, id: TabId) -> Option<crate::model::TabDump> {
        match self.selected() {
            Some(workspace) => workspace.tab_of(id),
            None => None,
        }
    }

    /// The tab that the window shows.
    pub open spec fn active_tab(self) -> Option<TabId> {
        match self.selected() {
            Some(workspace) => workspace.active_tab,
            None => None,
        }
    }

    /// A tab, if it is the one that the window shows.
    pub open spec fn shown_tab(self, id: TabId) -> Option<crate::model::TabDump> {
        if self.active_tab() == Some(id) {
            self.tab(id)
        } else {
            None
        }
    }

    /// The terminal in the focused pane of the tab that is shown.
    pub open spec fn active_terminal(self) -> Option<TerminalId> {
        match (self.focused_pane, self.selected()) {
            (Some(pane), Some(workspace)) => match workspace.active() {
                Some(tab) => tab.tree.terminal_in(pane),
                None => None,
            },
            _ => None,
        }
    }

    pub open spec fn terminal_snapshot(self, id: TerminalId) -> Option<TerminalSnapshot> {
        if self.terminal_snapshots.contains_key(id.raw) {
            Some(*self.terminal_snapshots[id.raw])
        } else {
            None
        }
    }

    /// Something on top of the window has the input.
    pub open spec fn has_transient_ui(self) -> bool {
        self.overlay.rename_target is Some || self.overlay.context_menu is Some || self.overlay.dialog is Some
    }

    /// The channel of the active connection, or the last one that was.
    pub open spec fn active_transport(self) -> TransportId {
        self.transport_of(self.active_connection)
    }

    /// The channel to the server of a connection; that of the window where the
    /// connection is gone.
    pub open spec fn transport_of(self, connection_id: ConnectionId) -> TransportId {
        match self.connection(connection_id) {
            Some(connection) => connection.client,
            None => self.client,
        }
    }

    /// With a command for the server of a connection. A connection that is
    /// gone takes none; the window is drawn again instead.
    pub open spec fn dispatching_on(
        self,
        connection_id: ConnectionId,
        command: crate::command::CommandModel,
    ) -> Self {
        match self.connection(connection_id) {
            Some(connection) => self.asking(
                crate::command::EffectModel::Dispatch {
                    transport: connection.client,
                    connection_id,
                    command,
                },
            ),
            None => self.notified(),
        }
    }

    pub open spec fn dispatching(self, command: crate::command::CommandModel) -> Self {
        self.dispatching_on(self.active_connection, command)
    }

    /// With a terminal command on the channel of the active connection.
    pub open spec fn enqueueing(self, command: crate::command::CommandModel) -> Self {
        self.asking(
            crate::command::EffectModel::Enqueue {
                transport: self.active_transport(),
                command,
            },
        )
    }

    /// With nothing composed.
    pub open spec fn without_ime(self) -> Self {
        ViewModel { ime: crate::ime::ImeModel::idle(), ..self }
    }

    /// Showing another connection from the start.
    pub open spec fn projecting(self, connection: WorkspaceConnection) -> Self {
        let snapshot = *connection.snapshot;
        let selected = snapshot.selection_after(None);
        ViewModel {
            active_connection: connection.id,
            client: connection.client,
            snapshot,
            selected_workspace: selected,
            focused_pane: snapshot.focus_in(selected, snapshot.focused_pane),
            selection: None,
            ime: crate::ime::ImeModel::idle(),
            scrolling: ScrollingModel {
                scroll_accumulators: Map::empty(),
                active_trackpad_scrolls: Set::empty(),
                pending_viewport_requests: Map::empty(),
                mouse_scroll_animations: Map::empty(),
                ..self.scrolling
            },
            press: PressModel { split_drag: None, ..self.press },
            strip: StripModel { pending_tab: None, last_revealed_tab: None, ..self.strip },
            ..self
        }.asking(crate::command::EffectModel::ClearRenderCaches)
    }

    /// A window just opened on some connections.
    pub open spec fn opened(
        has_application: bool,
        connections: Seq<WorkspaceConnection>,
        active: WorkspaceConnection,
        config: ViewConfig,
    ) -> Self {
        let snapshot = *active.snapshot;
        let selected = snapshot.selection_after(None);
        ViewModel {
            has_application,
            connections,
            active_connection: active.id,
            client: active.client,
            snapshot,
            config,
            resize_requests: Map::empty(),
            input_handler_terminal: None,
            selected_workspace: selected,
            focused_pane: snapshot.focus_in(selected, snapshot.focused_pane),
            terminal_snapshots: Map::empty(),
            selection: None,
            ime: crate::ime::ImeModel::idle(),
            scrolling: ScrollingModel::idle(),
            press: PressModel::idle(),
            sidebar: SidebarModel::configured(config),
            overlay: OverlayModel::nothing(),
            strip: StripModel {
                last_tab_strip_signature: (None, 0),
                last_revealed_tab: None,
                pending_tab: None,
            },
            effects: Seq::empty(),
        }
    }
}

impl WorkspaceConnection {
    /// The same connection once more.
    pub fn copy(&self) -> (copy: Self)
        ensures
            copy == *self,
    {
        WorkspaceConnection {
            id: self.id,
            title: self.title.clone(),
            kind: self.kind,
            client: self.client,
            snapshot: share(&self.snapshot),
        }
    }
}

/// The connection among others that a window opens on: the one asked for, or
/// the first.
pub open spec fn opening_connection(
    connections: Seq<WorkspaceConnection>,
    id: ConnectionId,
) -> WorkspaceConnection {
    match crate::lookup::item_where(connections, connection_has_id(id)) {
        Some(connection) => connection,
        None => connections[0],
    }
}

pub fn find_connection(connections: &Vec<WorkspaceConnection>, id: ConnectionId) -> (index: Option<
    usize,
>)
    ensures
        match index {
            Some(index) => crate::lookup::first_where(connections@, connection_has_id(id)) == Some(
                index as int,
            ) && index < connections.len() && connections@[index as int].id == id,
            None => crate::lookup::first_where(connections@, connection_has_id(id)) is None,
        },
{
    let ghost property = connection_has_id(id);
    let mut i: usize = 0;
    while i < connections.len()
        invariant
            i <= connections.len(),
            property == connection_has_id(id),
            forall|j: int| 0 <= j < i ==> !property(#[trigger] connections@[j]),
        decreases connections.len() - i,
    {
        if connections[i].id == id {
            proof {
                crate::lookup::lemma_is_first(connections@, property, i as int);
            }
            return Some(i);
        }
        i += 1;
    }
    proof {
        crate::lookup::lemma_none_is_first(connections@, property);
    }
    None
}

impl WorkspaceView {
    /// Opens a window on a local server with the settings that hold where
    /// nothing else was configured.
    pub fn new(client: TransportId, snapshot: Arc<ModelSnapshot>, defaults: ViewConfig) -> (view:
        Self)
        ensures
            exists|connection: WorkspaceConnection|
                {
                    &&& connection.id == (ConnectionId { raw: 1 })
                    &&& connection.title@ == "Local"@
                    &&& connection.kind == WorkspaceConnectionKind::Local
                    &&& connection.client == client
                    &&& connection.snapshot == snapshot
                    &&& view@ == #[trigger] ViewModel::opened(
                        false,
                        seq![connection],
                        connection,
                        defaults,
                    )
                },
            view@.wf(),
    {
        Self::new_with_config(client, snapshot, defaults)
    }

    /// Opens a window on a local server.
    pub fn new_with_config(
        client: TransportId,
        snapshot: Arc<ModelSnapshot>,
        config: ViewConfig,
    ) -> (view: Self)
        ensures
            exists|connection: WorkspaceConnection|
                {
                    &&& connection.id == (ConnectionId { raw: 1 })
                    &&& connection.title@ == "Local"@
                    &&& connection.kind == WorkspaceConnectionKind::Local
                    &&& connection.client == client
                    &&& connection.snapshot == snapshot
                    &&& view@ == #[trigger] ViewModel::opened(
                        false,
                        seq![connection],
                        connection,
                        config,
                    )
                },
            view@.wf(),
    {
        let connection_id = ConnectionId::new(1);
        let mut connections: Vec<WorkspaceConnection> = Vec::new();
        let connection = WorkspaceConnection {
            id: connection_id,
            title: "Local".to_owned(),
            kind: WorkspaceConnectionKind::Local,
            client,
            snapshot,
        };
        let ghost only = connection;
        connections.push(connection);
        proof {
            assert(connections@ =~= seq![only]);
            crate::lookup::lemma_is_first(connections@, connection_has_id(connection_id), 0);
        }
        Self::new_with_connections(false, connections, connection_id, config)
    }

    /// Opens a window on some connections.
    pub fn new_with_connections(
        has_application: bool,
        connections: Vec<WorkspaceConnection>,
        active_connection: ConnectionId,
        config: ViewConfig,
    ) -> (view: Self)
        requires
            connections.len() > 0,
        ensures
            view@ == ViewModel::opened(
                has_application,
                connections@,
                opening_connection(connections@, active_connection),
                config,
            ),
            view@.wf(),
    {
        let index: usize = match find_connection(&connections, active_connection) {
            Some(index) => index,
            None => 0,
        };
        let active_connection = connections[index].id;
        let client = connections[index].client;
        let snapshot = share(&connections[index].snapshot);
        let selected_workspace = workspace_selection_after_snapshot(None, &snapshot);
        let focused_pane = focused_pane_for_workspace(
            &snapshot,
            selected_workspace,
            snapshot.focused_pane,
        );
        let view = WorkspaceView {
            has_application,
            connections,
            active_connection,
            client,
            snapshot,
            config,
            resize_requests: BTreeMap::new(),
            input_handler_terminal: None,
            selected_workspace,
            focused_pane,
            terminal_snapshots: BTreeMap::new(),
            selection: None,
            ime: ImeState::new(),
            scrolling: ScrollingState {
                scroll_accumulators: BTreeMap::new(),
                active_trackpad_scrolls: BTreeSet::new(),
                pending_viewport_requests: BTreeMap::new(),
                viewport_request_frame_pending: false,
                mouse_scroll_animations: BTreeMap::new(),
                mouse_scroll_frame_pending: false,
            },
            press: PressState {
                selection_autoscroll: None,
                selection_autoscroll_frame_pending: false,
                dragging_terminal: None,
                reported_mouse: None,
                last_reported_mouse_cell: None,
                window_drag_start: None,
                split_drag: None,
                titlebar_dragging: false,
            },
            sidebar: SidebarState {
                sidebar_collapsed: !config.sidebar_visible,
                collapsed_connections: BTreeSet::new(),
                collapsed_workspaces: BTreeSet::new(),
                sidebar_width: config.sidebar_width,
                dragging_sidebar: false,
                sidebar_drag: None,
                sidebar_drop_preview: None,
            },
            overlay: OverlayState {
                rename_target: None,
                rename_value: Vec::new(),
                field: TextField::new(),
                dialog_input_generation: 0,
                remote_connection_error: None,
                remote_connection_pending: false,
                context_menu: None,
                dialog: None,
            },
            strip: StripState {
                last_tab_strip_signature: (None, 0),
                last_revealed_tab: None,
                pending_tab: None,
            },
            effects: Vec::new(),
        };
        proof {
            reveal(grids_are_sound);
            assert(view@.effects =~= Seq::<crate::command::EffectModel>::empty());
        }
        view
    }

    /// Asks for something to happen outside.
    pub fn ask(&mut self, effect: Effect)
        ensures
            final(self)@ == old(self)@.asking(effect@),
    {
        let ghost wanted = effect@;
        self.effects.push(effect);
        assert(effect_models(self.effects@) =~= effect_models(old(self).effects@).push(wanted));
    }

    /// Asks for the window to be drawn again.
    pub fn notify(&mut self)
        ensures
            final(self)@ == old(self)@.notified(),
    {
        self.ask(Effect::Notify);
    }

    /// Hands over what has to happen outside, oldest first.
    pub fn take_effects(&mut self) -> (effects: Vec<Effect>)
        ensures
            effect_models(effects@) == old(self)@.effects,
            final(self)@ == (ViewModel { effects: Seq::empty(), ..old(self)@ }),
    {
        let mut effects: Vec<Effect> = Vec::new();
        std::mem::swap(&mut effects, &mut self.effects);
        assert(self@.effects =~= Seq::<crate::command::EffectModel>::empty());
        effects
    }

    pub fn connection_by_id(&self, connection_id: ConnectionId) -> (connection: Option<
        &WorkspaceConnection,
    >)
        ensures
            crate::lookup::refers(connection, self@.connection(connection_id)),
            connection is Some ==> connection->0.id == connection_id,
    {
        match find_connection(&self.connections, connection_id) {
            Some(index) => Some(&self.connections[index]),
            None => None,
        }
    }

    pub fn clear_ime(&mut self)
        ensures
            final(self)@ == old(self)@.without_ime(),
    {
        self.ime.clear();
    }

    /// Sends a command to the server of a connection.
    pub fn dispatch_on(&mut self, connection_id: ConnectionId, command: AppCommand)
        ensures
            final(self)@ == old(self)@.dispatching_on(connection_id, command@),
    {
        let transport: Option<TransportId> = match self.connection_by_id(connection_id) {
            Some(connection) => Some(connection.client),
            None => None,
        };
        match transport {
            Some(transport) => {
                self.ask(Effect::Dispatch { transport, connection_id, command });
            },
            None => {
                self.notify();
            },
        }
    }

    /// Sends a command to the server of the active connection.
    pub fn dispatch(&mut self, command: AppCommand)
        ensures
            final(self)@ == old(self)@.dispatching(command@),
    {
        self.dispatch_on(self.active_connection, command);
    }

    /// The channel of the active connection, or the last one that was.
    pub fn active_transport(&self) -> (transport: TransportId)
        ensures
            transport == self@.active_transport(),
    {
        self.transport_of(self.active_connection)
    }

    /// The channel to the server of a connection; that of the window where the
    /// connection is gone.
    pub fn transport_of(&self, connection_id: ConnectionId) -> (transport: TransportId)
        ensures
            transport == self@.transport_of(connection_id),
    {
        match self.connection_by_id(connection_id) {
            Some(connection) => connection.client,
            None => self.client,
        }
    }

    /// Sends a terminal command without waiting. It goes over the channel of
    /// the active connection, whose server owns the terminal.
    pub fn enqueue_terminal_command(&mut self, command: AppCommand)
        ensures
            final(self)@ == old(self)@.enqueueing(command@),
    {
        let transport = self.active_transport();
        self.ask(Effect::Enqueue { transport, command });
    }
}

} // verus!
