//! Dragging the edge of the sidebar, its rows, the window and dividers.

use crate::command::AppCommand;
use crate::ids::TabId;
use crate::ids::WorkspaceId;
use crate::model::agent_by_pane_id;
use crate::model::pane_split_at_path;
use crate::model::SplitAxis;
use crate::sidebar::sidebar_drop_boundary;
use crate::sidebar::sidebar_reorder_final_index;
use crate::sidebar::SidebarBoundary;
use crate::view::PointerPosition;
use crate::view::SidebarDrag;
use crate::view::SidebarDragSource;
use crate::view::SidebarDropPreview;
use crate::view::SplitDrag;
use crate::view::SplitRect;
use crate::view::WorkspaceView;
use vstd::prelude::*;

verus! {

/// The rows of a workspace under the pointer.
#[derive(Clone, Copy, PartialEq, Eq, Structural, Debug)]
pub struct SidebarGroup {
    pub workspace_id: WorkspaceId,
    pub holds_pointer: bool,
    /// Bits of the height of the lower edge.
    pub bottom: u32,
}

/// The sidebar as the pointer sees it.
#[derive(Debug)]
pub struct SidebarPointer {
    pub inside: bool,
    pub groups: Vec<SidebarGroup>,
    /// The upper edge of the first group and the lower edges of all.
    pub boundaries: Vec<SidebarBoundary>,
    /// Bits of the heights of these edges.
    pub edges: Vec<u32>,
}

pub open spec fn group_is_of(id: WorkspaceId) -> spec_fn(SidebarGroup) -> bool {
    |group: SidebarGroup| group.workspace_id == id
}

pub open spec fn group_takes_agents_of(id: WorkspaceId) -> spec_fn(SidebarGroup) -> bool {
    |group: SidebarGroup| group.workspace_id != id && group.holds_pointer
}

impl SidebarPointer {
    /// Every edge has a height.
    pub open spec fn wf(self) -> bool {
        self.boundaries.len() == self.edges.len()
    }

    /// Where a dragged workspace would go. A drop that would change nothing
    /// is not offered.
    pub open spec fn workspace_drop(self, id: WorkspaceId) -> Option<SidebarDropPreview> {
        match (
            crate::sidebar::drop_boundary(self.inside, self.boundaries@),
            crate::lookup::first_where(self.groups@, group_is_of(id)),
        ) {
            (Some(boundary), Some(source)) => {
                let index = crate::sidebar::final_index(
                    source,
                    boundary,
                    self.groups.len() as int,
                );
                if index == source {
                    None
                } else {
                    Some(
                        SidebarDropPreview::Workspace {
                            y: self.edges@[boundary],
                            index: index as usize,
                        },
                    )
                }
            },
            _ => None,
        }
    }

    /// Where a dragged agent of a workspace would go: into another workspace
    /// whose rows are under the pointer.
    pub open spec fn agent_drop(self, id: WorkspaceId) -> Option<SidebarDropPreview> {
        if !self.inside {
            None
        } else {
            match crate::lookup::item_where(self.groups@, group_takes_agents_of(id)) {
                Some(group) => Some(
                    SidebarDropPreview::Agent {
                        y: group.bottom,
                        target_workspace_id: group.workspace_id,
                    },
                ),
                None => None,
            }
        }
    }

    pub open spec fn drop_of(self, source: SidebarDragSource) -> Option<SidebarDropPreview> {
        match source {
            SidebarDragSource::Workspace { workspace_id } => self.workspace_drop(workspace_id),
            SidebarDragSource::Agent { workspace_id, .. } => self.agent_drop(workspace_id),
        }
    }

    fn find_group(&self, workspace_id: WorkspaceId) -> (index: Option<usize>)
        ensures
            match index {
                Some(index) => crate::lookup::first_where(self.groups@, group_is_of(workspace_id))
                    == Some(index as int) && index < self.groups.len(),
                None => crate::lookup::first_where(self.groups@, group_is_of(workspace_id)) is None,
            },
    {
        let ghost property = group_is_of(workspace_id);
        let mut i: usize = 0;
        while i < self.groups.len()
            invariant
                i <= self.groups.len(),
                property == group_is_of(workspace_id),
                forall|j: int| 0 <= j < i ==> !property(#[trigger] self.groups@[j]),
            decreases self.groups.len() - i,
        {
            if self.groups[i].workspace_id == workspace_id {
                proof {
                    crate::lookup::lemma_is_first(self.groups@, property, i as int);
                }
                return Some(i);
            }
            i += 1;
        }
        proof {
            crate::lookup::lemma_none_is_first(self.groups@, property);
        }
        None
    }

    fn find_agent_target(&self, workspace_id: WorkspaceId) -> (group: Option<SidebarGroup>)
        ensures
            group == crate::lookup::item_where(self.groups@, group_takes_agents_of(workspace_id)),
    {
        let ghost property = group_takes_agents_of(workspace_id);
        let mut i: usize = 0;
        while i < self.groups.len()
            invariant
                i <= self.groups.len(),
                property == group_takes_agents_of(workspace_id),
                forall|j: int| 0 <= j < i ==> !property(#[trigger] self.groups@[j]),
            decreases self.groups.len() - i,
        {
            let group = self.groups[i];
            if group.workspace_id != workspace_id && group.holds_pointer {
                proof {
                    crate::lookup::lemma_is_first(self.groups@, property, i as int);
                }
                return Some(group);
            }
            i += 1;
        }
        proof {
            crate::lookup::lemma_none_is_first(self.groups@, property);
        }
        None
    }

    /// Where a dragged row would be dropped.
    pub fn preview(&self, source: SidebarDragSource) -> (preview: Option<SidebarDropPreview>)
        requires
            self.wf(),
        ensures
            preview == self.drop_of(source),
    {
        match source {
            SidebarDragSource::Workspace { workspace_id } => {
                match (
                    sidebar_drop_boundary(self.inside, &self.boundaries),
                    self.find_group(workspace_id),
                ) {
                    (Some(boundary), Some(source_index)) => {
                        let index: usize = sidebar_reorder_final_index(
                            source_index,
                            boundary,
                            self.groups.len(),
                        );
                        if index == source_index {
                            None
                        } else {
                            Some(SidebarDropPreview::Workspace { y: self.edges[boundary], index })
                        }
                    },
                    _ => None,
                }
            },
            SidebarDragSource::Agent { workspace_id, .. } => {
                if !self.inside {
                    return None;
                }
                match self.find_agent_target(workspace_id) {
                    Some(group) => Some(
                        SidebarDropPreview::Agent {
                            y: group.bottom,
                            target_workspace_id: group.workspace_id,
                        },
                    ),
                    None => None,
                }
            },
        }
    }
}

impl crate::view::ViewModel {
    /// With the edge of the sidebar dragged to a width that differs from the
    /// present one.
    pub open spec fn dragging_edge(self, width: u32, differs: bool) -> Self {
        if !self.sidebar.dragging_sidebar || self.sidebar.sidebar_collapsed || !differs {
            self
        } else {
            crate::view::ViewModel {
                sidebar: crate::view::SidebarModel { sidebar_width: width, ..self.sidebar },
                ..self
            }.notified()
        }
    }

    pub open spec fn pressing_window(self, position: PointerPosition) -> Self {
        if self.has_transient_ui() {
            self
        } else {
            crate::view::ViewModel {
                press: crate::view::PressModel {
                    window_drag_start: Some(position),
                    split_drag: None,
                    ..self.press
                },
                sidebar: crate::view::SidebarModel {
                    sidebar_drag: None,
                    sidebar_drop_preview: None,
                    ..self.sidebar
                },
                ..self
            }
        }
    }

    /// The window is pressed and the pointer far enough away.
    pub open spec fn window_moves(self, far: bool) -> bool {
        self.press.window_drag_start is Some && far
    }

    pub open spec fn dragging_window(self, far: bool) -> Self {
        if self.window_moves(far) {
            crate::view::ViewModel {
                press: crate::view::PressModel { window_drag_start: None, ..self.press },
                ..self
            }
        } else {
            self
        }
    }

    pub open spec fn pressing_row(self, source: SidebarDragSource, start: PointerPosition) -> Self {
        crate::view::ViewModel {
            sidebar: crate::view::SidebarModel {
                sidebar_drag: Some(SidebarDrag { source, start, active: false }),
                sidebar_drop_preview: None,
                ..self.sidebar
            },
            press: crate::view::PressModel {
                window_drag_start: None,
                split_drag: None,
                ..self.press
            },
            ..self
        }
    }

    pub open spec fn dragging_row(self, far: bool, pointer: SidebarPointer) -> Self {
        match self.sidebar.sidebar_drag {
            Some(drag) => if drag.active || far {
                crate::view::ViewModel {
                    sidebar: crate::view::SidebarModel {
                        sidebar_drag: Some(SidebarDrag { active: true, ..drag }),
                        sidebar_drop_preview: pointer.drop_of(drag.source),
                        ..self.sidebar
                    },
                    ..self
                }.notified()
            } else {
                self
            },
            None => self,
        }
    }

    /// The command that a drop sends, where source and target still fit.
    pub open spec fn drop_command(
        self,
        source: SidebarDragSource,
        preview: Option<SidebarDropPreview>,
    ) -> Option<crate::command::CommandModel> {
        match (source, preview) {
            (
                SidebarDragSource::Workspace { workspace_id },
                Some(SidebarDropPreview::Workspace { index, .. }),
            ) => if self.workspace(workspace_id) is Some {
                Some(crate::command::CommandModel::ReorderWorkspace { workspace_id, index })
            } else {
                None
            },
            (
                SidebarDragSource::Agent { pane_id, workspace_id },
                Some(SidebarDropPreview::Agent { target_workspace_id, .. }),
            ) => if workspace_id != target_workspace_id && self.workspace(
                target_workspace_id,
            ) is Some && self.snapshot.agent_in(pane_id) is Some && self.snapshot.agent_in(
                pane_id,
            )->0.workspace_id == workspace_id {
                Some(
                    crate::command::CommandModel::MovePane {
                        pane_id,
                        workspace_id: target_workspace_id,
                    },
                )
            } else {
                None
            },
            _ => None,
        }
    }

    /// With the dragged row dropped.
    pub open spec fn dropping_row(self) -> Self {
        let released = crate::view::ViewModel {
            sidebar: crate::view::SidebarModel {
                sidebar_drag: None,
                sidebar_drop_preview: None,
                ..self.sidebar
            },
            ..self
        };
        match self.sidebar.sidebar_drag {
            Some(drag) => if !drag.active {
                released
            } else {
                match self.drop_command(drag.source, self.sidebar.sidebar_drop_preview) {
                    Some(command) => released.dispatching(command),
                    None => released,
                }.notified()
            },
            None => released,
        }
    }

    /// The tab shown has a split of this direction at a path.
    pub open spec fn shows_split(self, tab_id: TabId, path: Seq<bool>, axis: SplitAxis) -> bool {
        match self.shown_tab(tab_id) {
            Some(tab) => match tab.tree.split_at(path) {
                Some(split) => split.0 == axis,
                None => false,
            },
            None => false,
        }
    }

    /// With a divider pressed, if the split is shown and was laid out.
    pub open spec fn pressing_divider(
        self,
        tab_id: TabId,
        path: Seq<bool>,
        axis: SplitAxis,
        rect: Option<SplitRect>,
        start: u32,
    ) -> Self {
        if rect is None || !self.shows_split(tab_id, path, axis) {
            self
        } else {
            crate::view::ViewModel {
                press: crate::view::PressModel {
                    split_drag: Some(
                        crate::view::SplitDragModel {
                            tab_id,
                            path,
                            axis,
                            rect: rect->0,
                            start,
                            start_ratio: (self.shown_tab(tab_id)->0.tree.split_at(path)->0).1,
                            preview_ratio: None,
                        },
                    ),
                    window_drag_start: None,
                    ..self.press
                },
                sidebar: crate::view::SidebarModel {
                    sidebar_drag: None,
                    sidebar_drop_preview: None,
                    ..self.sidebar
                },
                ..self
            }.notified()
        }
    }

    /// With a divider dragged to where it would have a ratio.
    pub open spec fn dragging_divider(self, ratio: u32) -> Self {
        match self.press.split_drag {
            Some(drag) => crate::view::ViewModel {
                press: crate::view::PressModel {
                    split_drag: Some(
                        crate::view::SplitDragModel {
                            preview_ratio: if self.shows_split(drag.tab_id, drag.path, drag.axis) {
                                Some(ratio)
                            } else {
                                drag.preview_ratio
                            },
                            ..drag
                        },
                    ),
                    ..self.press
                },
                ..self
            }.notified(),
            None => self,
        }
    }

    /// With a divider released. The split is only changed while it is shown.
    pub open spec fn releasing_divider(self) -> Self {
        match self.press.split_drag {
            Some(drag) => {
                let released = crate::view::ViewModel {
                    press: crate::view::PressModel { split_drag: None, ..self.press },
                    ..self
                };
                match drag.preview_ratio {
                    Some(ratio) => if self.shows_split(drag.tab_id, drag.path, drag.axis) {
                        released.dispatching(
                            crate::command::CommandModel::ResizeSplit {
                                tab_id: drag.tab_id,
                                path: drag.path,
                                ratio,
                            },
                        )
                    } else {
                        released
                    },
                    None => released,
                }.notified()
            },
            None => self,
        }
    }
}

impl WorkspaceView {
    /// Follows the edge of the sidebar; `differs` tells whether the width is
    /// another than the present one.
    pub fn update_sidebar_width(&mut self, width: u32, differs: bool)
        ensures
            final(self)@ == old(self)@.dragging_edge(width, differs),
            old(self)@.wf() ==> final(self)@.wf(),
    {
        if !self.sidebar.dragging_sidebar || self.sidebar.sidebar_collapsed {
            return;
        }
        if differs {
            self.sidebar.sidebar_width = width;
            self.notify();
        }
    }

    pub fn begin_window_drag(&mut self, position: PointerPosition)
        ensures
            final(self)@ == old(self)@.pressing_window(position),
            old(self)@.wf() ==> final(self)@.wf(),
    {
        if self.has_transient_ui() {
            return;
        }
        self.press.window_drag_start = Some(position);
        self.sidebar.sidebar_drag = None;
        self.sidebar.sidebar_drop_preview = None;
        self.press.split_drag = None;
    }

    /// Follows a press on the window; tells whether the window is to be moved
    /// now.
    pub fn update_window_drag(&mut self, far: bool) -> (moves: bool)
        ensures
            final(self)@ == old(self)@.dragging_window(far),
            moves == old(self)@.window_moves(far),
            old(self)@.wf() ==> final(self)@.wf(),
    {
        if self.press.window_drag_start.is_none() || !far {
            return false;
        }
        self.press.window_drag_start = None;
        true
    }

    pub fn begin_sidebar_drag(&mut self, source: SidebarDragSource, start: PointerPosition)
        ensures
            final(self)@ == old(self)@.pressing_row(source, start),
            old(self)@.wf() ==> final(self)@.wf(),
    {
        self.sidebar.sidebar_drag = Some(SidebarDrag { source, start, active: false });
        self.sidebar.sidebar_drop_preview = None;
        self.press.window_drag_start = None;
        self.press.split_drag = None;
    }

    /// Follows a dragged row; `far` tells whether the pointer is far enough
    /// from where it was pressed. Tells whether there is a row to follow.
    pub fn update_sidebar_drag(&mut self, far: bool, pointer: &SidebarPointer) -> (dragged: bool)
        requires
            pointer.wf(),
        ensures
            final(self)@ == old(self)@.dragging_row(far, *pointer),
            dragged == (old(self)@.sidebar.sidebar_drag is Some),
            old(self)@.wf() ==> final(self)@.wf(),
    {
        let drag: SidebarDrag = match self.sidebar.sidebar_drag {
            Some(drag) => drag,
            None => {
                return false;
            },
        };
        if !drag.active && !far {
            return true;
        }
        self.sidebar.sidebar_drag = Some(SidebarDrag { source: drag.source, start: drag.start, active: true });
        self.sidebar.sidebar_drop_preview = pointer.preview(drag.source);
        self.notify();
        true
    }

    fn command_for_drop(
        &self,
        source: SidebarDragSource,
        preview: Option<SidebarDropPreview>,
    ) -> (command: Option<AppCommand>)
        ensures
            match command {
                Some(command) => self@.drop_command(source, preview) == Some(command@),
                None => self@.drop_command(source, preview) is None,
            },
    {
        match (source, preview) {
            (
                SidebarDragSource::Workspace { workspace_id },
                Some(SidebarDropPreview::Workspace { index, .. }),
            ) => {
                if self.workspace_exists(workspace_id) {
                    Some(AppCommand::ReorderWorkspace { workspace_id, index })
                } else {
                    None
                }
            },
            (
                SidebarDragSource::Agent { pane_id, workspace_id },
                Some(SidebarDropPreview::Agent { target_workspace_id, .. }),
            ) => {
                let belongs: bool = match agent_by_pane_id(&self.snapshot, pane_id) {
                    Some(agent) => agent.workspace_id == workspace_id,
                    None => false,
                };
                if workspace_id != target_workspace_id && self.workspace_exists(target_workspace_id)
                    && belongs {
                    Some(AppCommand::MovePane { pane_id, workspace_id: target_workspace_id })
                } else {
                    None
                }
            },
            _ => None,
        }
    }

    /// Drops the dragged row.
    pub fn finish_sidebar_drag(&mut self)
        ensures
            final(self)@ == old(self)@.dropping_row(),
            old(self)@.wf() ==> final(self)@.wf(),
    {
        let drag = self.sidebar.sidebar_drag;
        let preview = self.sidebar.sidebar_drop_preview;
        let command: Option<AppCommand> = match drag {
            Some(drag) => {
                if drag.active {
                    self.command_for_drop(drag.source, preview)
                } else {
                    None
                }
            },
            None => None,
        };
        self.sidebar.sidebar_drag = None;
        self.sidebar.sidebar_drop_preview = None;
        if let Some(drag) = drag {
            if drag.active {
                if let Some(command) = command {
                    self.dispatch(command);
                }
                self.notify();
            }
        }
    }

    fn split_is_shown(&self, tab_id: TabId, path: &Vec<bool>, axis: SplitAxis) -> (shown: bool)
        ensures
            shown == self@.shows_split(tab_id, path@, axis),
    {
        match self.active_tab_by_id(tab_id) {
            Some(tab) => match pane_split_at_path(&tab.tree, path) {
                Some((found, _, _, _)) => found == axis,
                None => false,
            },
            None => false,
        }
    }

    /// Presses a divider; `rect` is where its split was laid out.
    pub fn begin_split_drag(
        &mut self,
        tab_id: TabId,
        path: Vec<bool>,
        axis: SplitAxis,
        rect: Option<SplitRect>,
        start: u32,
    )
        ensures
            final(self)@ == old(self)@.pressing_divider(tab_id, path@, axis, rect, start),
            old(self)@.wf() ==> final(self)@.wf(),
    {
        let start_ratio: u32 = match self.active_tab_by_id(tab_id) {
            Some(tab) => match pane_split_at_path(&tab.tree, &path) {
                Some((found, ratio, _, _)) => {
                    if found != axis {
                        return;
                    }
                    ratio
                },
                None => {
                    return;
                },
            },
            None => {
                return;
            },
        };
        let rect: SplitRect = match rect {
            Some(rect) => rect,
            None => {
                return;
            },
        };
        self.press.split_drag = Some(
            SplitDrag { tab_id, path, axis, rect, start, start_ratio, preview_ratio: None },
        );
        self.sidebar.sidebar_drag = None;
        self.sidebar.sidebar_drop_preview = None;
        self.press.window_drag_start = None;
        self.notify();
    }

    /// Follows a divider; `ratio` is what it would have at the pointer. Tells
    /// whether there is a divider to follow.
    pub fn update_split_drag(&mut self, ratio: u32) -> (dragged: bool)
        ensures
            final(self)@ == old(self)@.dragging_divider(ratio),
            dragged == (old(self)@.press.split_drag is Some),
            old(self)@.wf() ==> final(self)@.wf(),
    {
        let shown: bool = match &self.press.split_drag {
            Some(drag) => self.split_is_shown(drag.tab_id, &drag.path, drag.axis),
            None => {
                return false;
            },
        };
        if let Some(drag) = self.press.split_drag.take() {
            let preview_ratio: Option<u32> = if shown {
                Some(ratio)
            } else {
                drag.preview_ratio
            };
            self.press.split_drag = Some(
                SplitDrag {
                    tab_id: drag.tab_id,
                    path: drag.path,
                    axis: drag.axis,
                    rect: drag.rect,
                    start: drag.start,
                    start_ratio: drag.start_ratio,
                    preview_ratio,
                },
            );
        }
        self.notify();
        true
    }

    /// Releases a divider.
    pub fn finish_split_drag(&mut self)
        ensures
            final(self)@ == old(self)@.releasing_divider(),
            old(self)@.wf() ==> final(self)@.wf(),
    {
        let shown: bool = match &self.press.split_drag {
            Some(drag) => self.split_is_shown(drag.tab_id, &drag.path, drag.axis),
            None => {
                return;
            },
        };
        if let Some(drag) = self.press.split_drag.take() {
            if let (Some(ratio), true) = (drag.preview_ratio, shown) {
                self.dispatch(
                    AppCommand::ResizeSplit { tab_id: drag.tab_id, path: drag.path, ratio },
                );
            }
        }
        self.notify();
    }
}

/// A drop line is only ever shown where dropping would change the order, and
/// for an agent only over another workspace than its own.
pub proof fn law_drops_change_something(pointer: SidebarPointer, source: SidebarDragSource)
    requires
        pointer.wf(),
    ensures
        match (source, pointer.drop_of(source)) {
            (
                SidebarDragSource::Workspace { workspace_id },
                Some(SidebarDropPreview::Workspace { index, .. }),
            ) => index < pointer.groups.len() && crate::lookup::first_where(
                pointer.groups@,
                group_is_of(workspace_id),
            ) != Some(index as int),
            (
                SidebarDragSource::Agent { workspace_id, .. },
                Some(SidebarDropPreview::Agent { target_workspace_id, .. }),
            ) => target_workspace_id != workspace_id,
            (_, None) => true,
            _ => false,
        },
{
    match source {
        SidebarDragSource::Workspace { workspace_id } => {
            crate::lookup::lemma_first_where(pointer.groups@, group_is_of(workspace_id));
            if let Some(boundary) = crate::sidebar::drop_boundary(
                pointer.inside,
                pointer.boundaries@,
            ) {
                let chosen = choose|index: int|
                    crate::sidebar::takes_the_drop(pointer.boundaries@, index);
                assert(crate::sidebar::takes_the_drop(pointer.boundaries@, chosen));
            }
        },
        SidebarDragSource::Agent { workspace_id, .. } => {
            crate::lookup::lemma_first_where(
                pointer.groups@,
                group_takes_agents_of(workspace_id),
            );
        },
    }
}

/// A press that never became a drag sends nothing and draws nothing.
pub proof fn law_clicks_drop_nothing(view: crate::view::ViewModel)
    requires
        view.sidebar.sidebar_drag is Some ==> !view.sidebar.sidebar_drag->0.active,
    ensures
        view.dropping_row().effects == view.effects,
        view.dropping_row().sidebar.sidebar_drag is None,
        view.dropping_row().sidebar.sidebar_drop_preview is None,
{
}

/// A divider is only ever moved in the tab that is shown.
pub proof fn law_hidden_splits_are_not_resized(view: crate::view::ViewModel)
    requires
        view.press.split_drag is Some,
        view.active_tab() != Some(view.press.split_drag->0.tab_id),
    ensures
        view.releasing_divider().effects == view.effects.push(crate::command::EffectModel::Notify),
        view.releasing_divider().press.split_drag is None,
{
}

/// A dropped row is moved on the server: a workspace to its new place, an agent
/// to the workspace under the pointer. The drag is over either way.
pub proof fn law_dropped_rows_are_moved(
    view: crate::view::ViewModel,
    connection: crate::view::WorkspaceConnection,
    drag: SidebarDrag,
    preview: SidebarDropPreview,
)
    requires
        view.connection(view.active_connection) == Some(connection),
        view.sidebar.sidebar_drag == Some(drag),
        view.sidebar.sidebar_drop_preview == Some(preview),
        drag.active,
    ensures
        view.dropping_row().sidebar.sidebar_drag is None,
        view.dropping_row().sidebar.sidebar_drop_preview is None,
        view.dropping_row().effects.last() == crate::command::EffectModel::Notify,
        drag.source matches SidebarDragSource::Workspace { workspace_id } ==> (
        preview matches SidebarDropPreview::Workspace { index, .. } ==> (view.workspace(
            workspace_id,
        ) is Some ==> view.dropping_row().effects == view.effects.push(
            crate::command::EffectModel::Dispatch {
                transport: connection.client,
                connection_id: view.active_connection,
                command: crate::command::CommandModel::ReorderWorkspace { workspace_id, index },
            },
        ).push(crate::command::EffectModel::Notify))),
        drag.source matches SidebarDragSource::Agent { pane_id, workspace_id } ==> (
        preview matches SidebarDropPreview::Agent { target_workspace_id, .. } ==> (workspace_id
            != target_workspace_id && view.workspace(target_workspace_id) is Some
            && view.snapshot.agent_in(pane_id) is Some && view.snapshot.agent_in(
            pane_id,
        )->0.workspace_id == workspace_id ==> view.dropping_row().effects == view.effects.push(
            crate::command::EffectModel::Dispatch {
                transport: connection.client,
                connection_id: view.active_connection,
                command: crate::command::CommandModel::MovePane {
                    pane_id,
                    workspace_id: target_workspace_id,
                },
            },
        ).push(crate::command::EffectModel::Notify))),
{
}

/// A row is dragged once the pointer went far from where it was pressed; where
/// it would be dropped is shown while it is.
pub proof fn law_rows_are_dragged_far(
    view: crate::view::ViewModel,
    source: SidebarDragSource,
    start: PointerPosition,
    pointer: SidebarPointer,
)
    ensures
        ({
            let pressed = view.pressing_row(source, start);
            let dragged = pressed.dragging_row(true, pointer);
            &&& pressed.sidebar.sidebar_drag == Some(SidebarDrag { source, start, active: false })
            &&& pressed.sidebar.sidebar_drop_preview is None
            &&& pressed.press.window_drag_start is None
            &&& pressed.press.split_drag is None
            &&& pressed.dragging_row(false, pointer) == pressed
            &&& dragged.sidebar.sidebar_drag == Some(SidebarDrag { source, start, active: true })
            &&& dragged.sidebar.sidebar_drop_preview == pointer.drop_of(source)
            &&& dragged.dragging_row(false, pointer).sidebar == dragged.sidebar
        }),
{
}

/// A workspace is dropped at the nearest edge, in the place it has there; its
/// own edges are no place to drop it.
pub proof fn law_workspaces_drop_at_edges(
    pointer: SidebarPointer,
    id: WorkspaceId,
    source: int,
    boundary: int,
)
    requires
        pointer.wf(),
        0 <= source < pointer.groups.len(),
        pointer.groups@[source].workspace_id == id,
        forall|j: int|
            0 <= j < source ==> (#[trigger] pointer.groups@[j]).workspace_id != id,
        crate::sidebar::drop_boundary(pointer.inside, pointer.boundaries@) == Some(boundary),
        0 <= boundary <= pointer.groups.len(),
    ensures
        boundary == source || boundary == source + 1 ==> pointer.drop_of(
            SidebarDragSource::Workspace { workspace_id: id },
        ) is None,
        boundary < source ==> pointer.drop_of(SidebarDragSource::Workspace { workspace_id: id })
            == Some(
            SidebarDropPreview::Workspace {
                y: pointer.edges@[boundary],
                index: boundary as usize,
            },
        ),
        boundary > source + 1 ==> pointer.drop_of(
            SidebarDragSource::Workspace { workspace_id: id },
        ) == Some(
            SidebarDropPreview::Workspace {
                y: pointer.edges@[boundary],
                index: (boundary - 1) as usize,
            },
        ),
{
    crate::lookup::lemma_is_first(pointer.groups@, group_is_of(id), source);
}

/// An agent is dropped on the first other workspace under the pointer, below
/// which the mark is drawn.
pub proof fn law_agents_drop_on_other_workspaces(
    pointer: SidebarPointer,
    pane_id: crate::ids::PaneId,
    id: WorkspaceId,
    index: int,
)
    requires
        0 <= index < pointer.groups.len(),
        pointer.groups@[index].workspace_id != id,
        pointer.groups@[index].holds_pointer,
        forall|j: int|
            0 <= j < index ==> (#[trigger] pointer.groups@[j]).workspace_id == id
                || !pointer.groups@[j].holds_pointer,
    ensures
        pointer.inside ==> pointer.drop_of(SidebarDragSource::Agent { pane_id, workspace_id: id })
            == Some(
            SidebarDropPreview::Agent {
                y: pointer.groups@[index].bottom,
                target_workspace_id: pointer.groups@[index].workspace_id,
            },
        ),
        !pointer.inside ==> pointer.drop_of(
            SidebarDragSource::Agent { pane_id, workspace_id: id },
        ) is None,
{
    crate::lookup::lemma_is_first(pointer.groups@, group_takes_agents_of(id), index);
}

/// A divider that was dragged is moved on the server when it is released; one
/// that was only pressed is not.
pub proof fn law_dragged_dividers_are_moved(
    view: crate::view::ViewModel,
    connection: crate::view::WorkspaceConnection,
    tab: crate::model::TabDump,
    path: Seq<bool>,
    axis: SplitAxis,
    share: u32,
    first: crate::model::PaneTreeDump,
    second: crate::model::PaneTreeDump,
    rect: SplitRect,
    start: u32,
    ratio: u32,
)
    requires
        view.connection(view.active_connection) == Some(connection),
        view.shown_tab(tab.id) == Some(tab),
        tab.tree.split_at(path) == Some((axis, share, first, second)),
    ensures
        ({
            let pressed = view.pressing_divider(tab.id, path, axis, Some(rect), start);
            let dragged = pressed.dragging_divider(ratio);
            &&& pressed.press.split_drag is Some
            &&& pressed.press.split_drag->0.start_ratio == share
            &&& pressed.press.split_drag->0.start == start
            &&& pressed.press.split_drag->0.preview_ratio is None
            &&& dragged.press.split_drag is Some
            &&& dragged.press.split_drag->0.preview_ratio == Some(ratio)
            &&& dragged.releasing_divider().press.split_drag is None
            &&& dragged.releasing_divider().effects == dragged.effects.push(
                crate::command::EffectModel::Dispatch {
                    transport: connection.client,
                    connection_id: view.active_connection,
                    command: crate::command::CommandModel::ResizeSplit {
                        tab_id: tab.id,
                        path,
                        ratio,
                    },
                },
            ).push(crate::command::EffectModel::Notify)
            &&& pressed.releasing_divider().effects == pressed.effects.push(
                crate::command::EffectModel::Notify,
            )
        }),
        view.pressing_divider(tab.id, path, axis, None, start) == view,
{
    let pressed = view.pressing_divider(tab.id, path, axis, Some(rect), start);
    assert(view.shows_split(tab.id, path, axis));
    assert(pressed.shows_split(tab.id, path, axis));
    let dragged = pressed.dragging_divider(ratio);
    assert(dragged.shows_split(tab.id, path, axis));
}

/// The sidebar is as wide as its edge was dragged, while it is shown.
pub proof fn law_sidebars_follow_their_edge(view: crate::view::ViewModel, width: u32)
    ensures
        view.sidebar.dragging_sidebar && !view.sidebar.sidebar_collapsed ==> view.dragging_edge(
            width,
            true,
        ).sidebar.sidebar_width == width,
        !view.sidebar.dragging_sidebar || view.sidebar.sidebar_collapsed ==> view.dragging_edge(
            width,
            true,
        ) == view,
        view.dragging_edge(width, false) == view,
{
}

} // verus!
