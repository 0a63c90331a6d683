//! Choices that follow from the state of a server, and the sidebar.

use std::collections::BTreeMap;
use std::collections::BTreeSet;
use water_workspace::arith::wrapped_index;
use water_workspace::command::Operation;
use water_workspace::command::OperationResult;
use water_workspace::drags::SidebarGroup;
use water_workspace::drags::SidebarPointer;
use water_workspace::ids::ConnectionId;
use water_workspace::ids::PaneId;
use water_workspace::ids::TabId;
use water_workspace::ids::TerminalId;
use water_workspace::ids::WorkspaceId;
use water_workspace::model::collect_terminal_ids;
use water_workspace::model::focused_pane_for_workspace;
use water_workspace::model::pane_split_at_path;
use water_workspace::model::pane_tree_contains_pane;
use water_workspace::model::terminal_id_for_pane;
use water_workspace::model::terminal_projection_for_id;
use water_workspace::model::workspace_selection_after_snapshot;
use water_workspace::model::ModelSnapshot;
use water_workspace::model::PaneTreeDump;
use water_workspace::model::SplitAxis;
use water_workspace::model::SurfaceKind;
use water_workspace::model::SurfaceState;
use water_workspace::model::TabDump;
use water_workspace::model::TerminalProjection;
use water_workspace::model::WorkspaceDump;
use water_workspace::resize::terminal_resize_request_needed;
use water_workspace::sidebar::sidebar_drop_boundary;
use water_workspace::sidebar::sidebar_reorder_final_index;
use water_workspace::sidebar::SidebarBoundary;
use water_workspace::sidebar_panel::project_name;
use water_workspace::terminal::TerminalSize;
use water_workspace::view::SidebarDragSource;
use water_workspace::view::SidebarDropPreview;

fn workspace_dump(id: WorkspaceId) -> WorkspaceDump {
    WorkspaceDump {
        id,
        title: format!("Workspace {}", id.raw),
        active_tab: None,
        tabs: Vec::new(),
    }
}

fn model_snapshot(
    workspaces: Vec<WorkspaceDump>,
    active_workspace: Option<WorkspaceId>,
) -> ModelSnapshot {
    ModelSnapshot {
        state_revision: 1,
        workspace: workspaces.first().map(|workspace| workspace_dump(workspace.id)),
        workspaces,
        active_workspace,
        focused_pane: None,
        agents: Vec::new(),
    }
}

fn leaf(pane: u128, terminal: u128) -> PaneTreeDump {
    PaneTreeDump::Leaf {
        pane_id: PaneId::new(pane),
        surface_kind: SurfaceKind::Terminal,
        surface_state: SurfaceState::Terminal {
            terminal_id: TerminalId::new(terminal),
            columns: 80,
            lines: 24,
        },
        terminal: Some(TerminalProjection { terminal_id: TerminalId::new(terminal) }),
    }
}

fn split(axis: SplitAxis, ratio: f32, first: PaneTreeDump, second: PaneTreeDump) -> PaneTreeDump {
    PaneTreeDump::Split {
        axis,
        ratio: ratio.to_bits(),
        first: Box::new(first),
        second: Box::new(second),
    }
}

#[test]
fn workspace_selection_preserves_local_choice_and_falls_back_safely() {
    let first = WorkspaceId::new(1);
    let second = WorkspaceId::new(2);
    let both = || vec![workspace_dump(first), workspace_dump(second)];
    let snapshot = model_snapshot(both(), Some(second));

    assert_eq!(workspace_selection_after_snapshot(Some(first), &snapshot), Some(first));
    assert_eq!(
        workspace_selection_after_snapshot(Some(WorkspaceId::new(99)), &snapshot),
        Some(second)
    );

    let no_active = model_snapshot(both(), None);
    assert_eq!(
        workspace_selection_after_snapshot(Some(WorkspaceId::new(99)), &no_active),
        Some(first)
    );
    let empty = model_snapshot(Vec::new(), None);
    assert_eq!(workspace_selection_after_snapshot(Some(first), &empty), None);
}

#[test]
fn pane_resize_requests_are_connection_scoped_and_reassert_after_supersession() {
    let pane_id = PaneId::new(1);
    let terminal_id = TerminalId::new(1);
    let local = ConnectionId::new(1);
    let remote = ConnectionId::new(2);
    let initial = TerminalSize::new(80, 24);
    let first_window = TerminalSize::new(100, 30);
    let second_window = TerminalSize::new(120, 40);
    let mut requests = BTreeMap::new();

    assert!(terminal_resize_request_needed(
        &mut requests,
        local,
        pane_id,
        terminal_id,
        initial,
        first_window,
        true,
    ));
    assert!(!terminal_resize_request_needed(
        &mut requests,
        local,
        pane_id,
        terminal_id,
        initial,
        first_window,
        true,
    ));
    assert!(
        terminal_resize_request_needed(
            &mut requests,
            local,
            pane_id,
            TerminalId::new(2),
            initial,
            first_window,
            true,
        ),
        "replacing the terminal surface in a pane must create a fresh request"
    );
    assert!(
        terminal_resize_request_needed(
            &mut requests,
            remote,
            pane_id,
            terminal_id,
            initial,
            first_window,
            true,
        ),
        "colliding remote pane/terminal IDs must not inherit the local request"
    );

    assert!(
        terminal_resize_request_needed(
            &mut requests,
            local,
            pane_id,
            TerminalId::new(2),
            second_window,
            first_window,
            true,
        ),
        "the active window must reassert its size after another window resized the PTY"
    );
    assert!(!terminal_resize_request_needed(
        &mut requests,
        local,
        pane_id,
        terminal_id,
        first_window,
        first_window,
        false,
    ));
    assert!(!requests.contains_key(&(local.raw, pane_id.raw)));
}

/// The edges of groups of rows, as a pointer at a height sees them.
fn boundaries(
    pointer_y: f32,
    groups: &[(f32, f32)],
    top: f32,
    bottom: f32,
    tolerance: f32,
) -> (bool, Vec<SidebarBoundary>, Vec<f32>) {
    let inside = pointer_y >= top && pointer_y <= bottom;
    let edges: Vec<f32> =
        std::iter::once(groups[0].0).chain(groups.iter().map(|group| group.1)).collect();
    let seen = edges
        .iter()
        .map(|y| SidebarBoundary {
            in_reach: *y >= top - tolerance && *y <= bottom + tolerance,
            distance: (pointer_y - *y).abs().to_bits(),
            droppable: (pointer_y - *y).abs() <= tolerance,
        })
        .collect();
    (inside, seen, edges)
}

#[test]
fn sidebar_drop_boundaries_reject_group_interiors_and_out_of_range_points() {
    let groups = [(10.0, 38.0), (38.0, 84.0), (84.0, 112.0)];
    let drop = |pointer_y: f32| {
        let (inside, seen, edges) = boundaries(pointer_y, &groups, 10.0, 112.0, 14.0);
        sidebar_drop_boundary(inside, &seen).map(|index| (index, edges[index]))
    };
    assert_eq!(drop(11.0), Some((0, 10.0)));
    assert_eq!(drop(39.0), Some((1, 38.0)));
    assert_eq!(drop(111.0), Some((3, 112.0)));
    assert_eq!(drop(60.0), None);
    assert_eq!(drop(0.0), None);
    assert_eq!(drop(125.0), None);
}

#[test]
fn sidebar_reorder_index_uses_after_removal_semantics() {
    assert_eq!(sidebar_reorder_final_index(0, 0, 3), 0);
    assert_eq!(sidebar_reorder_final_index(0, 3, 3), 2);
    assert_eq!(sidebar_reorder_final_index(1, 0, 3), 0);
    assert_eq!(sidebar_reorder_final_index(1, 1, 3), 1);
    assert_eq!(sidebar_reorder_final_index(1, 2, 3), 1);
    assert_eq!(sidebar_reorder_final_index(2, 0, 3), 0);
    assert_eq!(sidebar_reorder_final_index(2, 3, 3), 2);
    assert_eq!(sidebar_reorder_final_index(99, 99, 3), 0);
}

#[test]
fn drops_that_change_nothing_are_not_offered() {
    let groups = [(10.0, 38.0), (38.0, 84.0), (84.0, 112.0)];
    let pointer = |y: f32| {
        let (inside, boundaries, edges) = boundaries(y, &groups, 10.0, 112.0, 14.0);
        SidebarPointer {
            inside,
            groups: groups
                .iter()
                .enumerate()
                .map(|(index, group)| SidebarGroup {
                    workspace_id: WorkspaceId::new(index as u128 + 1),
                    holds_pointer: y >= group.0 && y <= group.1,
                    bottom: group.1.to_bits(),
                })
                .collect(),
            boundaries,
            edges: edges.iter().map(|edge| edge.to_bits()).collect(),
        }
    };
    let first = SidebarDragSource::Workspace { workspace_id: WorkspaceId::new(1) };
    assert_eq!(pointer(11.0).preview(first), None);
    assert_eq!(pointer(39.0).preview(first), None);
    assert_eq!(
        pointer(85.0).preview(first),
        Some(SidebarDropPreview::Workspace { y: 84.0_f32.to_bits(), index: 1 })
    );
    assert_eq!(
        pointer(111.0).preview(first),
        Some(SidebarDropPreview::Workspace { y: 112.0_f32.to_bits(), index: 2 })
    );
    let agent = SidebarDragSource::Agent {
        pane_id: PaneId::new(9),
        workspace_id: WorkspaceId::new(1),
    };
    assert_eq!(pointer(20.0).preview(agent), None);
    assert_eq!(
        pointer(60.0).preview(agent),
        Some(SidebarDropPreview::Agent {
            y: 84.0_f32.to_bits(),
            target_workspace_id: WorkspaceId::new(2),
        })
    );
}

#[test]
fn panes_are_found_in_their_trees() {
    let tree = split(
        SplitAxis::Horizontal,
        0.5,
        leaf(1, 11),
        split(SplitAxis::Vertical, 0.25, leaf(2, 12), leaf(3, 13)),
    );
    assert!(pane_tree_contains_pane(&tree, PaneId::new(3)));
    assert!(!pane_tree_contains_pane(&tree, PaneId::new(4)));
    assert_eq!(terminal_id_for_pane(&tree, PaneId::new(2)), Some(TerminalId::new(12)));
    assert_eq!(terminal_id_for_pane(&tree, PaneId::new(4)), None);
    assert_eq!(
        terminal_projection_for_id(&tree, TerminalId::new(13)).map(|found| found.terminal_id),
        Some(TerminalId::new(13))
    );
    assert!(terminal_projection_for_id(&tree, TerminalId::new(14)).is_none());
    let (axis, ratio, first, second) = pane_split_at_path(&tree, &vec![]).unwrap();
    assert_eq!((axis, ratio), (SplitAxis::Horizontal, 0.5_f32.to_bits()));
    assert_eq!(terminal_id_for_pane(first, PaneId::new(1)), Some(TerminalId::new(11)));
    assert!(pane_tree_contains_pane(second, PaneId::new(2)));
    assert!(!pane_tree_contains_pane(second, PaneId::new(1)));
    let (axis, ratio, first, second) = pane_split_at_path(&tree, &vec![true]).unwrap();
    assert_eq!((axis, ratio), (SplitAxis::Vertical, 0.25_f32.to_bits()));
    assert_eq!(terminal_id_for_pane(first, PaneId::new(2)), Some(TerminalId::new(12)));
    assert_eq!(terminal_id_for_pane(second, PaneId::new(3)), Some(TerminalId::new(13)));
    assert!(pane_split_at_path(&tree, &vec![false]).is_none());
    assert!(pane_split_at_path(&tree, &vec![true, true]).is_none());
    let mut terminals = BTreeSet::new();
    collect_terminal_ids(&tree, &mut terminals);
    assert_eq!(terminals.into_iter().collect::<Vec<_>>(), vec![11, 12, 13]);
}

#[test]
fn focus_prefers_the_pane_that_has_it() {
    let mut workspace = workspace_dump(WorkspaceId::new(1));
    workspace.active_tab = Some(TabId::new(5));
    workspace.tabs.push(TabDump {
        id: TabId::new(5),
        title: "shell".to_owned(),
        active_pane: PaneId::new(1),
        tree: split(SplitAxis::Horizontal, 0.5, leaf(1, 11), leaf(2, 12)),
    });
    let snapshot = model_snapshot(vec![workspace], None);
    let focus = |preferred: Option<u128>| {
        focused_pane_for_workspace(
            &snapshot,
            Some(WorkspaceId::new(1)),
            preferred.map(PaneId::new),
        )
    };
    assert_eq!(focus(Some(2)), Some(PaneId::new(2)));
    assert_eq!(focus(Some(3)), Some(PaneId::new(1)));
    assert_eq!(focus(None), Some(PaneId::new(1)));
}

#[test]
fn neighbours_wrap_around() {
    assert_eq!(wrapped_index(0, -1, 3), 2);
    assert_eq!(wrapped_index(2, 1, 3), 0);
    assert_eq!(wrapped_index(1, 1, 3), 2);
    assert_eq!(wrapped_index(1, -7, 3), 0);
    assert_eq!(wrapped_index(0, isize::MIN, 1), 0);
}

#[test]
fn projects_are_named_after_their_directory() {
    assert_eq!(project_name("/home/me/water"), "water");
    assert_eq!(project_name("water"), "water");
    assert_eq!(project_name("/home/me/water/"), project_name("/home/me/water"));
}

#[test]
fn operations_count_once_they_succeeded() {
    let created = OperationResult::WorkspaceCreated { workspace_id: WorkspaceId::new(3) };
    let done = Operation { finished: true, failed: false, result: Some(created) };
    assert_eq!(done.outcome(), Some(created));
    assert_eq!(done.created_workspace(), Some(WorkspaceId::new(3)));
    let failed = Operation { failed: true, ..done };
    assert_eq!(failed.outcome(), None);
    assert_eq!(failed.created_workspace(), None);
    let under_way = Operation { finished: false, ..done };
    assert_eq!(under_way.outcome(), None);
    let silent = Operation { result: None, ..done };
    assert_eq!(silent.outcome(), Some(OperationResult::Other));
    assert_eq!(silent.created_workspace(), None);
}
