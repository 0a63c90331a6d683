//! What the parts of a window show, and what presses on them do.

use std::collections::BTreeMap;
use std::sync::Arc;
use water_workspace::color::ThemeColors;
use water_workspace::command::AppCommand;
use water_workspace::command::Effect;
use water_workspace::command::OperationResult;
use water_workspace::drags::SidebarGroup;
use water_workspace::drags::SidebarPointer;
use water_workspace::drawing::composition_place;
use water_workspace::drawing::focused_cursor;
use water_workspace::drawing::frame_rows;
use water_workspace::drawing::outlined_cursor;
use water_workspace::drawing::shown_selection;
use water_workspace::drawing::PaintedCells;
use water_workspace::ids::ConnectionId;
use water_workspace::ids::PaneId;
use water_workspace::ids::TabId;
use water_workspace::ids::TerminalId;
use water_workspace::ids::TransportId;
use water_workspace::ids::WorkspaceId;
use water_workspace::keys::Modifiers;
use water_workspace::menus::menu_items;
use water_workspace::menus::MenuItem;
use water_workspace::model::ModelSnapshot;
use water_workspace::model::PaneTreeDump;
use water_workspace::model::SurfaceKind;
use water_workspace::model::SurfaceState;
use water_workspace::model::TabDump;
use water_workspace::model::TerminalProjection;
use water_workspace::model::WorkspaceDump;
use water_workspace::mouse::MouseButton;
use water_workspace::mouse::TerminalMousePosition;
use water_workspace::mouse::TouchPhase;
use water_workspace::offset::RowOffset;
use water_workspace::panels::path_code;
use water_workspace::panels::surface_label;
use water_workspace::panels::PaneContent;
use water_workspace::pointer::DragKind;
use water_workspace::pointer::TerminalPointer;
use water_workspace::pointer::WheelOutcome;
use water_workspace::pointer::WheelTurn;
use water_workspace::scroll::ScrollStep;
use water_workspace::scroll::TerminalScrollState;
use water_workspace::selection::TerminalCellPosition;
use water_workspace::selection::TerminalSelection;
use water_workspace::selection::TerminalSelectionEndpoint;
use water_workspace::selection::TerminalSelectionSide;
use water_workspace::sidebar::SidebarBoundary;
use water_workspace::sidebar_panel::dot_needs_contrast;
use water_workspace::terminal::TerminalCell;
use water_workspace::terminal::TerminalCursor;
use water_workspace::terminal::TerminalModes;
use water_workspace::terminal::TerminalSize;
use water_workspace::terminal::TerminalSnapshot;
use water_workspace::view::ContextMenuTarget;
use water_workspace::view::MouseScrollAnimation;
use water_workspace::view::PointerPosition;
use water_workspace::view::SidebarDragSource;
use water_workspace::view::ViewConfig;
use water_workspace::view::WorkspaceConnection;
use water_workspace::view::WorkspaceConnectionKind;
use water_workspace::view::WorkspaceView;

const LOCAL: ConnectionId = ConnectionId { raw: 1 };
const REMOTE: ConnectionId = ConnectionId { raw: 2 };
const LOCAL_CLIENT: TransportId = TransportId { raw: 11 };
const REMOTE_CLIENT: TransportId = TransportId { raw: 12 };

fn config() -> ViewConfig {
    ViewConfig {
        mouse_reporting: true,
        selection: true,
        bracketed_paste: true,
        sidebar_visible: true,
        sidebar_show_agent_count: true,
        sidebar_width: 220.0_f32.to_bits(),
    }
}

fn measured(rows: f32) -> RowOffset {
    RowOffset::Measured(rows.to_bits())
}

fn leaf(pane: u128, terminal: u128) -> PaneTreeDump {
    PaneTreeDump::Leaf {
        pane_id: PaneId::new(pane),
        surface_kind: SurfaceKind::Terminal,
        surface_state: SurfaceState::Terminal {
            terminal_id: TerminalId::new(terminal),
            columns: 80,
            lines: 24,
        },
        terminal: Some(TerminalProjection { terminal_id: TerminalId::new(terminal) }),
    }
}

fn tab(id: u128, pane: u128, terminal: u128) -> TabDump {
    TabDump {
        id: TabId::new(id),
        title: format!("tab {id}"),
        active_pane: PaneId::new(pane),
        tree: leaf(pane, terminal),
    }
}

fn workspace(id: u128, title: &str, tabs: Vec<TabDump>) -> WorkspaceDump {
    WorkspaceDump {
        id: WorkspaceId::new(id),
        title: title.to_owned(),
        active_tab: tabs.first().map(|tab| tab.id),
        tabs,
    }
}

fn state(revision: u64, workspaces: Vec<WorkspaceDump>) -> Arc<ModelSnapshot> {
    let active_workspace = workspaces.first().map(|workspace| workspace.id);
    let focused_pane = workspaces
        .first()
        .and_then(|workspace| workspace.tabs.first())
        .map(|tab| tab.active_pane);
    Arc::new(ModelSnapshot {
        state_revision: revision,
        workspace: None,
        workspaces,
        active_workspace,
        focused_pane,
        agents: Vec::new(),
    })
}

/// A workspace with two tabs, and one without any.
fn shells(revision: u64) -> Arc<ModelSnapshot> {
    state(
        revision,
        vec![
            workspace(1, "first", vec![tab(21, 31, 41), tab(22, 32, 42)]),
            workspace(2, "second", vec![]),
        ],
    )
}

fn connections() -> Vec<WorkspaceConnection> {
    vec![
        WorkspaceConnection {
            id: LOCAL,
            title: "Local".to_owned(),
            kind: WorkspaceConnectionKind::Local,
            client: LOCAL_CLIENT,
            snapshot: state(1, vec![workspace(1, "Workspace 1", vec![])]),
        },
        WorkspaceConnection {
            id: REMOTE,
            title: "build-box".to_owned(),
            kind: WorkspaceConnectionKind::Remote,
            client: REMOTE_CLIENT,
            snapshot: state(
                1,
                vec![
                    workspace(7, "Workspace 1", vec![]),
                    workspace(8, "Workspace 2", vec![]),
                ],
            ),
        },
    ]
}

fn window() -> WorkspaceView {
    WorkspaceView::new_with_connections(false, connections(), LOCAL, config())
}

fn shell_window() -> WorkspaceView {
    WorkspaceView::new(LOCAL_CLIENT, shells(1), config())
}

fn grid(terminal: u128) -> TerminalSnapshot {
    TerminalSnapshot::empty(TerminalId::new(terminal), TerminalSize::new(80, 24))
}

fn keep(view: &mut WorkspaceView, grid: TerminalSnapshot) {
    let terminal_id = grid.terminal_id;
    view.keep_terminal_snapshot(terminal_id, &Arc::new(grid));
}

fn nothing_rebased() -> BTreeMap<u128, RowOffset> {
    BTreeMap::new()
}

fn commands(effects: &[Effect]) -> Vec<AppCommand> {
    effects
        .iter()
        .filter_map(|effect| match effect {
            Effect::Dispatch { command, .. } | Effect::Enqueue { command, .. } => {
                Some(command.clone())
            }
            _ => None,
        })
        .collect()
}

/// A pointer on a grid of cells of eight by sixteen pixels at the origin.
fn pointer_at(x: f32, y: f32, offset: f32) -> TerminalPointer {
    let column = (x / 8.0).floor();
    let side = if x - column * 8.0 < 4.0 {
        TerminalSelectionSide::Left
    } else {
        TerminalSelectionSide::Right
    };
    let translated = y - (offset - offset.trunc()) * 16.0;
    TerminalPointer {
        mouse: TerminalMousePosition {
            column: column as usize + 1,
            row: (y / 16.0).floor() as usize + 1,
            side,
        },
        painted_row: Some(if translated < 0.0 { -1 } else { (translated / 16.0).floor() as i32 }),
    }
}

fn nowhere() -> PointerPosition {
    PointerPosition { x: 0, y: 0 }
}

fn theme() -> ThemeColors {
    ThemeColors {
        terminal_background: 0,
        terminal_foreground: 1,
        selection_background: 2,
        cursor_foreground: 3,
        cursor_background: 4,
        inactive_cursor: 5,
        inverse_foreground: 6,
        inverse_background: 7,
        pane_background: 8,
        active_pane_border: 9,
        inactive_pane_border: 10,
        accent: 9,
        accent_foreground: 11,
        chrome_background: 11,
        tab_active_background: 12,
        tab_inactive_background: 13,
        tab_add_background: 14,
        ui_foreground: 15,
        sidebar_background: 16,
        sidebar_connection_background: 16,
        sidebar_connection_active_background: 16,
        sidebar_workspace_background: 17,
        sidebar_agent_background: 18,
        sidebar_drag_indicator: 19,
        sidebar_workspace_active_background: 19,
        sidebar_agent_active_background: 20,
        agent_colors: [21; 13],
    }
}

#[test]
fn tabs_show_their_titles() {
    let mut view = shell_window();
    view.begin_rename_tab(TabId::new(22));
    let items = view.tab_items(&theme());
    let shown: Vec<(&str, bool, u32)> = items
        .iter()
        .map(|item| (item.title.as_str(), item.active, item.background))
        .collect();
    assert_eq!(shown, vec![("tab 21", true, 12), ("tab 22▌", false, 13)]);
    assert_eq!(items[1].tab_id, TabId::new(22));
    assert_eq!(items[1].active_pane, PaneId::new(32));
}

#[test]
fn panes_show_grids_or_names() {
    let mut view = shell_window();
    let terminal_id = TerminalId::new(41);
    let mut snapshot = grid(41);
    snapshot.rows_before.push(Arc::new(vec![TerminalCell::blank(); 80]));
    let mut scrolled = TerminalScrollState::new(0);
    scrolled.visual_unacked_rows = measured(0.5);
    view.scrolling.scroll_accumulators.insert(terminal_id.raw, scrolled);
    let plan = |view: &WorkspaceView, grid: &TerminalSnapshot| {
        view.pane_plan(PaneId::new(31), SurfaceKind::Terminal, Some(grid), true, &theme())
    };
    let shown = plan(&view, &snapshot);
    assert!(shown.active && shown.cursor_focused);
    assert_eq!(shown.border, 9);
    assert_eq!(shown.content, PaneContent::Grid);
    assert_eq!(shown.offset, measured(0.5));
    // A program that takes the wheel keeps its picture in place.
    let mut reporting = snapshot.clone();
    reporting.modes.mouse_reporting = true;
    assert_eq!(plan(&view, &reporting).offset, RowOffset::Rows(0));
    let other =
        view.pane_plan(PaneId::new(32), SurfaceKind::Terminal, None, true, &theme());
    assert!(!other.active && !other.cursor_focused);
    assert_eq!((other.border, other.content), (10, PaneContent::Starting));
    let named = view.pane_plan(PaneId::new(32), SurfaceKind::Diff, None, true, &theme());
    assert_eq!(named.content, PaneContent::Named);
    assert_eq!(surface_label(SurfaceKind::Diff), "DiffSurface");
    assert_eq!(surface_label(SurfaceKind::Empty), "EmptySurface");
    assert_eq!(path_code(&vec![false, true, true]), "011");
    assert_eq!(path_code(&vec![]), "");
}

#[test]
fn cursors_are_drawn_once() {
    let mut snapshot = grid(41);
    snapshot.cursor = TerminalCursor { row: 2, column: 3, visible: true };
    assert_eq!(focused_cursor(&snapshot, true), Some((2, 3)));
    assert_eq!(outlined_cursor(&snapshot, true, RowOffset::zero()), None);
    assert_eq!(focused_cursor(&snapshot, false), None);
    assert_eq!(
        outlined_cursor(&snapshot, false, measured(1.5)),
        Some(PaintedCells { row: 3, column: 3, width_columns: 1 })
    );
    assert_eq!(
        composition_place(&snapshot, "拼", measured(-1.0)),
        Some(PaintedCells { row: 1, column: 3, width_columns: 1 })
    );
    assert_eq!(composition_place(&snapshot, "", measured(0.0)), None);
    snapshot.cursor.visible = false;
    assert_eq!(focused_cursor(&snapshot, true), None);
    assert_eq!(outlined_cursor(&snapshot, false, RowOffset::zero()), None);
    assert_eq!(composition_place(&snapshot, "拼", RowOffset::zero()), None);
}

#[test]
fn frames_prepare_a_band_around_what_shows() {
    let mut snapshot = grid(41);
    for _ in 0..20 {
        snapshot.rows_before.push(Arc::new(vec![TerminalCell::blank(); 80]));
    }
    let rows = frame_rows(&snapshot, measured(2.5));
    assert_eq!(rows.visible, -3..22);
    assert_eq!(rows.prepared, -11..24);
}

#[test]
fn only_the_own_selection_is_shown() {
    let snapshot = grid(41);
    let at = |column: usize| TerminalSelectionEndpoint {
        position: TerminalCellPosition { row: 0, column },
        side: TerminalSelectionSide::Left,
    };
    let selection =
        TerminalSelection { terminal_id: TerminalId::new(41), anchor: at(1), head: at(4) };
    assert_eq!(
        shown_selection(&snapshot, Some(selection)),
        Some((
            TerminalCellPosition { row: 0, column: 1 },
            TerminalCellPosition { row: 0, column: 3 },
        ))
    );
    assert_eq!(shown_selection(&snapshot, None), None);
    let other = TerminalSelection { terminal_id: TerminalId::new(42), ..selection };
    assert_eq!(shown_selection(&snapshot, Some(other)), None);
}

#[test]
fn menus_offer_what_their_target_can() {
    let labels = |target: ContextMenuTarget| -> Vec<String> {
        menu_items(target).into_iter().map(MenuItem::label).collect()
    };
    assert_eq!(
        labels(ContextMenuTarget::Workspace {
            connection_id: LOCAL,
            workspace_id: WorkspaceId::new(1),
        }),
        vec!["Rename workspace", "Close workspace"]
    );
    assert_eq!(
        labels(ContextMenuTarget::Tab { tab_id: TabId::new(21) }),
        vec!["Rename tab", "Close tab"]
    );
    assert_eq!(
        labels(ContextMenuTarget::Connection { connection_id: REMOTE }),
        vec!["Disconnect", "Kill Server"]
    );
}

#[test]
fn connections_show_their_kind() {
    let mut view = window();
    view.press_connection_header(REMOTE);
    let row = view.connection_row(view.connection_by_id(REMOTE).unwrap(), &theme());
    assert_eq!(row.kind_label, "SSH");
    assert!(row.has_menu && !row.is_empty);
    let local = view.connection_row(view.connection_by_id(LOCAL).unwrap(), &theme());
    assert_eq!(local.kind_label, "LOCAL");
    assert!(!local.has_menu);
    assert!(dot_needs_contrast(true, true, 20, &theme()));
    assert!(!dot_needs_contrast(true, false, 20, &theme()));
    assert!(!dot_needs_contrast(true, true, 0xffffff, &theme()));
}

#[test]
fn tabs_are_activated_by_a_press() {
    let mut view = shell_window();
    view.press_tab(TabId::new(22), PaneId::new(32));
    assert_eq!(
        commands(&view.take_effects()),
        vec![AppCommand::ActivateTab { tab_id: TabId::new(22) }]
    );
    assert_eq!(view.focused_pane, Some(PaneId::new(32)));
    view.press_new_tab();
    assert_eq!(
        commands(&view.take_effects()),
        vec![AppCommand::NewTab { workspace_id: WorkspaceId::new(1) }]
    );
    view.press_sidebar_toggle();
    assert!(view.sidebar.sidebar_collapsed);
}

#[test]
fn new_workspaces_are_shown() {
    let mut view = shell_window();
    view.take_effects();
    view.dispatch_new_workspace();
    assert!(
        view.take_effects()
            .contains(&Effect::CreateWorkspace { transport: LOCAL_CLIENT })
    );
    view.finish_new_workspace(
        state(
            2,
            vec![
                workspace(1, "first", vec![tab(21, 31, 41)]),
                workspace(3, "third", vec![]),
            ],
        ),
        &nothing_rebased(),
        WorkspaceId::new(3),
    );
    assert_eq!(view.selected_workspace, Some(WorkspaceId::new(3)));
}

#[test]
fn sizes_are_reported_to_the_server() {
    let mut view = shell_window();
    let owner = view.transport_of(LOCAL);
    let measure = |view: &mut WorkspaceView| {
        view.observe_terminal_size(
            owner,
            LOCAL,
            PaneId::new(31),
            TerminalId::new(41),
            TerminalSize::new(80, 24),
            TerminalSize::new(100, 30),
            true,
        );
    };
    measure(&mut view);
    assert_eq!(
        view.take_effects(),
        vec![Effect::Run {
            transport: LOCAL_CLIENT,
            command: AppCommand::ResizeTerminal {
                pane_id: PaneId::new(31),
                columns: 100,
                lines: 30,
            },
        }]
    );
    measure(&mut view);
    assert!(view.take_effects().is_empty());
}

#[test]
fn sidebars_are_resized_and_rearranged() {
    let mut view = shell_window();
    view.press_sidebar_edge();
    assert_eq!(view.current_drag(), DragKind::SidebarEdge);
    view.move_sidebar_edge(300.0_f32.to_bits(), true);
    assert_eq!(view.sidebar.sidebar_width, 300.0_f32.to_bits());
    view.release_left_button(Modifiers::none(), pointer_at(0.0, 0.0, 0.0));
    assert!(!view.sidebar.dragging_sidebar);

    view.begin_sidebar_drag(
        SidebarDragSource::Workspace { workspace_id: WorkspaceId::new(1) },
        nowhere(),
    );
    let edge = |distance: f32| SidebarBoundary {
        in_reach: true,
        distance: distance.to_bits(),
        droppable: distance < 14.0,
    };
    let group = |id: u128| SidebarGroup {
        workspace_id: WorkspaceId::new(id),
        holds_pointer: false,
        bottom: 0,
    };
    let pointer = SidebarPointer {
        inside: true,
        groups: vec![group(1), group(2)],
        boundaries: vec![edge(60.0), edge(30.0), edge(2.0)],
        edges: vec![0, 0, 0],
    };
    view.move_sidebar_row(true, &pointer);
    assert_eq!(view.current_drag(), DragKind::SidebarRow);
    view.take_effects();
    view.finish_sidebar_drag();
    assert_eq!(
        commands(&view.take_effects()),
        vec![AppCommand::ReorderWorkspace { workspace_id: WorkspaceId::new(1), index: 1 }]
    );
}

#[test]
fn windows_are_moved_by_their_background() {
    let mut view = shell_window();
    view.press_background(nowhere());
    assert_eq!(view.current_drag(), DragKind::Window);
    view.take_effects();
    view.move_window(Some(MouseButton::Left), false);
    assert!(!view.take_effects().contains(&Effect::StartWindowMove));
    view.move_window(Some(MouseButton::Left), true);
    assert!(view.take_effects().contains(&Effect::StartWindowMove));
}

#[test]
fn wheel_notches_are_played_over_frames() {
    let terminal_id = TerminalId::new(41);
    let pane_id = PaneId::new(31);
    let mut view = shell_window();
    let mut snapshot = grid(41);
    snapshot.history_len = 40;
    snapshot.rows_before.push(Arc::new(vec![TerminalCell::blank(); 80]));
    keep(&mut view, snapshot);
    let turn = WheelTurn {
        in_pixels: false,
        phase: TouchPhase::Moved,
        moves: true,
        more_than_a_row: true,
        lines: 3,
        mouse: pointer_at(0.0, 0.0, 0.0).mouse,
        modifiers: Modifiers::none(),
        modes: TerminalModes::none(),
    };
    assert_eq!(view.turn_wheel(pane_id, turn), WheelOutcome::Notch { terminal_id });
    let step = |rows: f32| ScrollStep {
        usable: true,
        from_current: measured(rows),
        from_rest: measured(rows),
    };
    assert!(view.notch_mouse_scroll(terminal_id, pane_id, false, &step(0.5)));
    view.begin_mouse_scroll_animation(
        terminal_id,
        MouseScrollAnimation {
            pane_id,
            start_position: measured(0.5),
            target_position: measured(3.0),
            started_at: 0,
        },
    );
    assert!(view.take_effects().contains(&Effect::RequestMouseScrollFrame));
    assert_eq!(view.begin_mouse_scroll_frame(), vec![terminal_id.raw]);
    assert!(view.play_mouse_scroll(terminal_id, &step(2.0)));
    view.finish_mouse_scroll_frame(&vec![], true);
    assert!(view.take_effects().contains(&Effect::RequestMouseScrollFrame));
    assert_eq!(view.begin_mouse_scroll_frame(), vec![terminal_id.raw]);
    view.finish_mouse_scroll_frame(&vec![terminal_id.raw], false);
    assert!(view.scrolling.mouse_scroll_animations.is_empty());
    assert!(!view.take_effects().contains(&Effect::RequestMouseScrollFrame));
    // Nothing to move: the notch ends what was under way.
    assert!(!view.notch_mouse_scroll(terminal_id, pane_id, true, &step(0.5)));
    assert_eq!(view.clamp_terminal_visual_position(terminal_id, measured(-2.0)), RowOffset::Rows(0));
    assert_eq!(view.clamp_terminal_visual_position(terminal_id, measured(2.0)), measured(2.0));
}

#[test]
fn input_methods_see_their_composition() {
    let terminal_id = TerminalId::new(41);
    let mut view = shell_window();
    let mut snapshot = grid(41);
    snapshot.cursor = TerminalCursor { row: 1, column: 4, visible: true };
    keep(&mut view, snapshot);
    assert!(view.accepts_text_input());
    view.attach_input_method(terminal_id);
    view.replace_and_mark_text_in_range(None, "拼音", Some(1..2));
    assert_eq!(view.ime_marked_text_for(terminal_id), Some("拼音".to_owned()));
    assert_eq!(view.ime_marked_text_for(TerminalId::new(42)), None);
    assert_eq!(view.marked_text_range(), Some(0..2));
    assert_eq!(view.selected_text_range(), Some(1..2));
    assert_eq!(view.text_length_utf16(), Some(2));
    assert_eq!(view.text_for_range(0..1), ("拼".to_owned(), 0..1));
    assert_eq!(view.composition_cell(terminal_id, (0, 0)), ((1, 4), 1));
    assert_eq!(view.character_index_for_cell(terminal_id, 1, 5), 1);
    assert_eq!(view.character_index_for_cell(terminal_id, 0, 5), 0);
    view.set_selected_text_range(0..0);
    assert_eq!(view.selected_text_range(), Some(0..0));
    view.unmark_text();
    assert_eq!(view.marked_text_range(), None);
    view.ime.terminal = None;
    assert!(view.accepts_text_input());
    assert!(view.select_workspace_locally(WorkspaceId::new(2)));
    assert!(!view.accepts_text_input());
    assert!(!view.accepts_text_input_for(terminal_id));
}

#[test]
fn closing_panes_moves_the_focus() {
    let mut view = shell_window();
    view.focused_pane = Some(PaneId::new(99));
    view.apply_operation_result(OperationResult::PaneFocused { pane_id: PaneId::new(99) });
    assert_eq!(view.focused_pane, Some(PaneId::new(99)));
    view.apply_operation_result(OperationResult::PaneClosed);
    assert_eq!(view.focused_pane, Some(PaneId::new(31)));
    view.focused_pane = None;
    view.apply_operation_result(OperationResult::TabActivated { tab_id: TabId::new(22) });
    assert_eq!(view.focused_pane, None);
    view.apply_operation_result(OperationResult::TabCreated { tab_id: TabId::new(21) });
    assert_eq!(view.focused_pane, Some(PaneId::new(31)));
}

#[test]
fn configurations_are_taken_over() {
    let mut view = shell_window();
    let wider = ViewConfig {
        sidebar_width: 300.0_f32.to_bits(),
        selection: false,
        ..config()
    };
    view.take_effects();
    view.apply_config(wider);
    assert_eq!(view.config, wider);
    assert!(view.take_effects().contains(&Effect::Notify));
}
