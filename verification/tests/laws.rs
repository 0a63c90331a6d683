//! What holds of the library as a whole, on chosen values.

use std::collections::BTreeMap;
use std::sync::Arc;
use water_workspace::color::channel_distance;
use water_workspace::color::dim_terminal_color;
use water_workspace::color::ThemeColors;
use water_workspace::command::AppCommand;
use water_workspace::command::Effect;
use water_workspace::command::OperationResult;
use water_workspace::dialogs::DestinationCheck;
use water_workspace::field::TextField;
use water_workspace::ids::ConnectionId;
use water_workspace::ids::PaneId;
use water_workspace::ids::TabId;
use water_workspace::ids::TerminalId;
use water_workspace::ids::TransportId;
use water_workspace::ids::WorkspaceId;
use water_workspace::keyboard::ShortcutMatches;
use water_workspace::keys::Keystroke;
use water_workspace::keys::Modifiers;
use water_workspace::model::AgentDump;
use water_workspace::model::AgentKind;
use water_workspace::model::ModelSnapshot;
use water_workspace::model::PaneTreeDump;
use water_workspace::model::SplitAxis;
use water_workspace::model::SurfaceKind;
use water_workspace::model::SurfaceState;
use water_workspace::model::TabDump;
use water_workspace::model::TerminalProjection;
use water_workspace::model::TerminalStatus;
use water_workspace::model::WorkspaceDump;
use water_workspace::mouse::terminal_mouse_sequence;
use water_workspace::mouse::MouseButton;
use water_workspace::mouse::TerminalMousePosition;
use water_workspace::mouse::TerminalMouseReportKind;
use water_workspace::offset::RowOffset;
use water_workspace::pointer::EdgeProximity;
use water_workspace::pointer::TerminalPointer;
use water_workspace::rows::terminal_row_data;
use water_workspace::rows::TerminalRenderOptions;
use water_workspace::scroll::terminal_prepared_source_rows;
use water_workspace::scroll::terminal_visible_source_rows;
use water_workspace::scroll::ScrollStep;
use water_workspace::scroll::TerminalScrollState;
use water_workspace::selection::selected_terminal_text;
use water_workspace::selection::selection_bounds;
use water_workspace::selection::shift_terminal_selection_rows;
use water_workspace::selection::terminal_selection_after_click;
use water_workspace::selection::TerminalCellPosition;
use water_workspace::selection::TerminalSelection;
use water_workspace::selection::TerminalSelectionEndpoint;
use water_workspace::selection::TerminalSelectionSide;
use water_workspace::sidebar::sidebar_reorder_final_index;
use water_workspace::sidebar_panel::project_name;
use water_workspace::terminal::TerminalModes;
use water_workspace::terminal::TerminalSize;
use water_workspace::terminal::TerminalSnapshot;
use water_workspace::text::chars_of;
use water_workspace::text::normalize_utf16_range;
use water_workspace::text::trim_chars;
use water_workspace::text::utf16_offset_to_byte;
use water_workspace::text::utf16_offset_to_byte_end;
use water_workspace::view::ContextMenuTarget;
use water_workspace::view::PointerPosition;
use water_workspace::view::SidebarDragSource;
use water_workspace::view::SplitRect;
use water_workspace::view::ViewConfig;
use water_workspace::view::WorkspaceConnection;
use water_workspace::view::WorkspaceConnectionKind;
use water_workspace::view::WorkspaceView;

const LOCAL: ConnectionId = ConnectionId { raw: 1 };
const REMOTE: ConnectionId = ConnectionId { raw: 2 };
const LOCAL_CLIENT: TransportId = TransportId { raw: 11 };
const REMOTE_CLIENT: TransportId = TransportId { raw: 12 };

fn config() -> ViewConfig {
    ViewConfig {
        mouse_reporting: true,
        selection: true,
        bracketed_paste: true,
        sidebar_visible: true,
        sidebar_show_agent_count: true,
        sidebar_width: 220.0_f32.to_bits(),
    }
}

fn measured(rows: f32) -> RowOffset {
    RowOffset::Measured(rows.to_bits())
}

fn leaf(pane: u128, terminal: u128) -> PaneTreeDump {
    PaneTreeDump::Leaf {
        pane_id: PaneId::new(pane),
        surface_kind: SurfaceKind::Terminal,
        surface_state: SurfaceState::Terminal {
            terminal_id: TerminalId::new(terminal),
            columns: 80,
            lines: 24,
        },
        terminal: Some(TerminalProjection { terminal_id: TerminalId::new(terminal) }),
    }
}

fn tab(id: u128, pane: u128, terminal: u128) -> TabDump {
    TabDump {
        id: TabId::new(id),
        title: format!("tab {id}"),
        active_pane: PaneId::new(pane),
        tree: leaf(pane, terminal),
    }
}

fn workspace(id: u128, title: &str, tabs: Vec<TabDump>) -> WorkspaceDump {
    WorkspaceDump {
        id: WorkspaceId::new(id),
        title: title.to_owned(),
        active_tab: tabs.first().map(|tab| tab.id),
        tabs,
    }
}

fn state(revision: u64, workspaces: Vec<WorkspaceDump>) -> Arc<ModelSnapshot> {
    let active_workspace = workspaces.first().map(|workspace| workspace.id);
    let focused_pane = workspaces
        .first()
        .and_then(|workspace| workspace.tabs.first())
        .map(|tab| tab.active_pane);
    Arc::new(ModelSnapshot {
        state_revision: revision,
        workspace: None,
        workspaces,
        active_workspace,
        focused_pane,
        agents: Vec::new(),
    })
}

/// A workspace with two tabs, and one without any.
fn shells(revision: u64) -> Arc<ModelSnapshot> {
    state(
        revision,
        vec![
            workspace(1, "first", vec![tab(21, 31, 41), tab(22, 32, 42)]),
            workspace(2, "second", vec![]),
        ],
    )
}

fn connections() -> Vec<WorkspaceConnection> {
    vec![
        WorkspaceConnection {
            id: LOCAL,
            title: "Local".to_owned(),
            kind: WorkspaceConnectionKind::Local,
            client: LOCAL_CLIENT,
            snapshot: state(1, vec![workspace(1, "Workspace 1", vec![])]),
        },
        WorkspaceConnection {
            id: REMOTE,
            title: "build-box".to_owned(),
            kind: WorkspaceConnectionKind::Remote,
            client: REMOTE_CLIENT,
            snapshot: state(
                1,
                vec![
                    workspace(7, "Workspace 1", vec![]),
                    workspace(8, "Workspace 2", vec![]),
                ],
            ),
        },
    ]
}

fn window() -> WorkspaceView {
    WorkspaceView::new_with_connections(false, connections(), LOCAL, config())
}

fn shell_window() -> WorkspaceView {
    WorkspaceView::new(LOCAL_CLIENT, shells(1), config())
}

fn grid(terminal: u128) -> TerminalSnapshot {
    TerminalSnapshot::empty(TerminalId::new(terminal), TerminalSize::new(80, 24))
}

fn keep(view: &mut WorkspaceView, grid: TerminalSnapshot) {
    let terminal_id = grid.terminal_id;
    view.keep_terminal_snapshot(terminal_id, &Arc::new(grid));
}

fn pressed(key: &str, key_char: Option<&str>) -> Keystroke {
    Keystroke {
        key: key.to_owned(),
        key_char: key_char.map(str::to_owned),
        modifiers: Modifiers::none(),
    }
}

fn no_shortcut() -> ShortcutMatches {
    ShortcutMatches {
        focus_left: false,
        focus_right: false,
        focus_up: false,
        focus_down: false,
        close_pane: false,
        paste: false,
        copy_or_interrupt: false,
        eof: false,
        scroll_page_up: false,
        scroll_page_down: false,
    }
}

fn unchecked() -> DestinationCheck {
    DestinationCheck::Invalid { message: "not a destination".to_owned() }
}

fn nothing_rebased() -> BTreeMap<u128, RowOffset> {
    BTreeMap::new()
}

fn commands(effects: &[Effect]) -> Vec<AppCommand> {
    effects
        .iter()
        .filter_map(|effect| match effect {
            Effect::Dispatch { command, .. } | Effect::Enqueue { command, .. } => {
                Some(command.clone())
            }
            _ => None,
        })
        .collect()
}

/// A pointer on a grid of cells of eight by sixteen pixels at the origin.
fn pointer_at(x: f32, y: f32, offset: f32) -> TerminalPointer {
    let column = (x / 8.0).floor();
    let side = if x - column * 8.0 < 4.0 {
        TerminalSelectionSide::Left
    } else {
        TerminalSelectionSide::Right
    };
    let translated = y - (offset - offset.trunc()) * 16.0;
    TerminalPointer {
        mouse: TerminalMousePosition {
            column: column as usize + 1,
            row: (y / 16.0).floor() as usize + 1,
            side,
        },
        painted_row: Some(if translated < 0.0 { -1 } else { (translated / 16.0).floor() as i32 }),
    }
}

fn nowhere() -> PointerPosition {
    PointerPosition { x: 0, y: 0 }
}

fn theme() -> ThemeColors {
    ThemeColors {
        terminal_background: 0,
        terminal_foreground: 1,
        selection_background: 2,
        cursor_foreground: 3,
        cursor_background: 4,
        inactive_cursor: 5,
        inverse_foreground: 6,
        inverse_background: 7,
        pane_background: 8,
        active_pane_border: 9,
        inactive_pane_border: 10,
        accent: 9,
        accent_foreground: 11,
        chrome_background: 11,
        tab_active_background: 12,
        tab_inactive_background: 13,
        tab_add_background: 14,
        ui_foreground: 15,
        sidebar_background: 16,
        sidebar_connection_background: 16,
        sidebar_connection_active_background: 16,
        sidebar_workspace_background: 17,
        sidebar_agent_background: 18,
        sidebar_drag_indicator: 19,
        sidebar_workspace_active_background: 19,
        sidebar_agent_active_background: 20,
        agent_colors: [21; 13],
    }
}


fn same_shape(left: &WorkspaceView, right: &WorkspaceView) {
    assert_eq!(left.active_connection, right.active_connection);
    assert_eq!(left.snapshot.state_revision, right.snapshot.state_revision);
    assert_eq!(left.selected_workspace, right.selected_workspace);
    assert_eq!(left.focused_pane, right.focused_pane);
    assert_eq!(left.selection, right.selection);
    assert_eq!(left.sidebar.collapsed_connections, right.sidebar.collapsed_connections);
    assert_eq!(left.sidebar.collapsed_workspaces, right.sidebar.collapsed_workspaces);
}

#[test]
fn dimming_never_brightens() {
    for color in [0x000000_u32, 0x010203, 0x7f80ff, 0xffffff] {
        let dim = dim_terminal_color(color);
        for shift in [0, 8, 16] {
            assert!((dim >> shift) & 0xff <= (color >> shift) & 0xff);
        }
    }
}

#[test]
fn distances_are_symmetric() {
    assert_eq!(channel_distance(0x102030, 0x405060), channel_distance(0x405060, 0x102030));
    assert_eq!(channel_distance(0x00ff00, 0x0000ff), 0xff);
}

#[test]
fn folding_twice_changes_nothing() {
    let mut view = window();
    view.toggle_connection_collapsed(REMOTE);
    view.toggle_workspace_collapsed(REMOTE, WorkspaceId::new(7));
    assert!(view.sidebar.collapsed_connections.contains(&REMOTE.raw));
    assert!(view.sidebar.collapsed_workspaces.contains(&(REMOTE.raw, 7)));
    view.toggle_connection_collapsed(REMOTE);
    view.toggle_workspace_collapsed(REMOTE, WorkspaceId::new(7));
    same_shape(&view, &window());
}

#[test]
fn connections_come_and_go() {
    let mut view = window();
    view.remove_connection(REMOTE);
    assert!(view.connection_by_id(REMOTE).is_none());
    view.install_connection(connections().remove(1));
    assert_eq!(view.connection_by_id(REMOTE).unwrap().title, "build-box");
    // The connection that is shown goes: the window falls back to another.
    assert!(view.select_connection_locally(REMOTE));
    view.remove_connection(REMOTE);
    assert!(view.connection_by_id(REMOTE).is_none());
    assert_eq!(view.active_connection, LOCAL);
}

#[test]
fn carets_do_not_outlive_their_dialog() {
    let mut view = window();
    view.begin_rename_workspace(LOCAL, WorkspaceId::new(1));
    let first = view.overlay.dialog_input_generation;
    assert!(view.blink_caret(first));
    assert!(!view.overlay.field.caret_visible);
    view.cancel_dialog();
    view.begin_rename_workspace(LOCAL, WorkspaceId::new(1));
    assert!(!view.blink_caret(first));
    assert!(view.overlay.field.caret_visible);
}

#[test]
fn clicks_drop_nothing() {
    let mut view = window();
    view.begin_sidebar_drag(
        SidebarDragSource::Workspace { workspace_id: WorkspaceId::new(1) },
        nowhere(),
    );
    view.take_effects();
    view.finish_sidebar_drag();
    assert!(view.take_effects().is_empty());
    assert!(view.sidebar.sidebar_drag.is_none());
}

#[test]
fn hidden_splits_are_not_resized() {
    let mut tabs = vec![tab(21, 31, 41), tab(22, 33, 43)];
    tabs[0].tree = PaneTreeDump::Split {
        axis: SplitAxis::Vertical,
        ratio: 0.5_f32.to_bits(),
        first: Box::new(leaf(31, 41)),
        second: Box::new(leaf(32, 42)),
    };
    let mut view = WorkspaceView::new(
        LOCAL_CLIENT,
        state(1, vec![workspace(1, "first", tabs), workspace(2, "second", vec![])]),
        config(),
    );
    let rect = SplitRect { origin: 0, extent: 100.0_f32.to_bits() };
    view.begin_split_drag(TabId::new(21), vec![], SplitAxis::Vertical, Some(rect), 0);
    view.update_split_drag(0.75_f32.to_bits());
    view.selected_workspace = Some(WorkspaceId::new(2));
    view.take_effects();
    view.finish_split_drag();
    assert_eq!(view.take_effects(), vec![Effect::Notify]);
    assert!(view.press.split_drag.is_none());
}

#[test]
fn typing_and_deleting_cancel() {
    let mut field = TextField::new();
    field.set("wörter");
    field.set_caret(3);
    field.insert("界");
    assert_eq!(field.text(), "wör界ter");
    assert!(field.delete_previous());
    assert_eq!(field.text(), "wörter");
    assert_eq!(field.caret, 3);
    field.move_caret(-99);
    assert_eq!((field.text(), field.caret), ("wörter".to_owned(), 0));
    assert!(!field.delete_previous());
    field.move_caret(99);
    assert!(!field.delete_next());
    assert!(!field.move_caret(1));
    let (before, after) = field.parts();
    assert_eq!(before + &after, field.text());
}

#[test]
fn compositions_leave_what_was_committed() {
    let mut composed = TextField::new();
    composed.set("ab");
    composed.set_caret(1);
    composed.compose("p");
    composed.compose("pi");
    assert_eq!(composed.text(), "apib");
    composed.commit("拼");
    let mut typed = TextField::new();
    typed.set("ab");
    typed.set_caret(1);
    typed.insert("拼");
    assert_eq!(composed.text(), typed.text());
    assert_eq!(composed.caret, typed.caret);
}

#[test]
fn cleared_lines_start_over() {
    let mut field = TextField::new();
    field.set("abc");
    field.clear();
    assert_eq!((field.text(), field.caret, field.ime_base), (String::new(), 0, 3));
    field.compose("pi");
    assert_eq!((field.text(), field.caret), ("pi".to_owned(), 2));
    field.set("x");
    assert_eq!((field.caret, field.ime_base), (1, 1));
}

#[test]
fn dialogs_take_the_text() {
    let mut view = shell_window();
    keep(&mut view, grid(41));
    view.begin_rename_workspace(LOCAL, WorkspaceId::new(1));
    view.overlay.field.set("");
    view.take_effects();
    view.replace_text_in_range("name");
    assert_eq!(view.overlay.field.text(), "name");
    assert!(commands(&view.take_effects()).is_empty());
}

#[test]
fn local_choices_survive() {
    let mut view = shell_window();
    assert!(view.select_workspace_locally(WorkspaceId::new(2)));
    view.install_snapshot(shells(2), &nothing_rebased());
    assert_eq!(view.selected_workspace, Some(WorkspaceId::new(2)));
    assert!(view.select_workspace_locally(WorkspaceId::new(1)));
    let pane = view.focused_pane;
    view.install_snapshot(shells(3), &nothing_rebased());
    assert_eq!(view.focused_pane, pane);
}

#[test]
fn selections_live_with_their_terminal() {
    let mut view = shell_window();
    keep(&mut view, grid(41));
    view.begin_terminal_selection(TerminalId::new(41), pointer_at(0.0, 0.0, 0.0), false);
    view.install_snapshot(shells(2), &nothing_rebased());
    assert!(view.selection.is_some());
    view.install_snapshot(
        state(3, vec![workspace(1, "first", vec![tab(22, 32, 42)])]),
        &nothing_rebased(),
    );
    assert!(view.selection.is_none());
}

#[test]
fn pending_tabs_settle() {
    let mut view = shell_window();
    view.activate_relative_tab(1);
    assert_eq!(view.strip.pending_tab, Some(TabId::new(22)));
    view.install_snapshot(shells(2), &nothing_rebased());
    assert_eq!(view.strip.pending_tab, Some(TabId::new(22)));
    let mut arrived = workspace(1, "first", vec![tab(21, 31, 41), tab(22, 32, 42)]);
    arrived.active_tab = Some(TabId::new(22));
    view.install_snapshot(state(3, vec![arrived]), &nothing_rebased());
    assert_eq!(view.strip.pending_tab, None);
}

#[test]
fn overlays_keep_their_targets() {
    let mut view = shell_window();
    view.open_context_menu(ContextMenuTarget::Tab { tab_id: TabId::new(22) }, nowhere());
    view.install_snapshot(shells(2), &nothing_rebased());
    assert!(view.overlay.context_menu.is_some());
    view.install_snapshot(
        state(3, vec![workspace(1, "first", vec![tab(21, 31, 41)])]),
        &nothing_rebased(),
    );
    assert!(view.overlay.context_menu.is_none());
}

#[test]
fn hidden_servers_change_nothing_shown() {
    let mut view = window();
    view.install_connection_snapshot(REMOTE, state(9, vec![]), &nothing_rebased());
    same_shape(&view, &window());
    assert_eq!(view.connection_by_id(REMOTE).unwrap().snapshot.state_revision, 9);
    view.install_connection_snapshot(LOCAL, state(9, vec![]), &nothing_rebased());
    assert_eq!(view.snapshot.state_revision, 9);
}

#[test]
fn keys_stop_at_the_top() {
    let mut view = shell_window();
    keep(&mut view, grid(41));
    view.open_context_menu(ContextMenuTarget::Tab { tab_id: TabId::new(22) }, nowhere());
    view.take_effects();
    view.handle_key_down(&pressed("up", None), no_shortcut(), unchecked());
    let effects = view.take_effects();
    assert!(commands(&effects).is_empty());
    assert_eq!(effects.last(), Some(&Effect::StopPropagation));
}

#[test]
fn characters_are_sent_once() {
    let mut view = shell_window();
    keep(&mut view, grid(41));
    view.begin_drawing();
    view.take_effects();
    view.handle_key_down(&pressed("a", Some("a")), no_shortcut(), unchecked());
    assert!(commands(&view.take_effects()).is_empty());
    view.replace_text_in_range("a");
    assert_eq!(commands(&view.take_effects()).len(), 1);
}

#[test]
fn mouse_coordinates_are_printable() {
    for (column, row) in [(1, 1), (223, 223), (9999, 9999)] {
        let position =
            TerminalMousePosition { column, row, side: TerminalSelectionSide::Left };
        let report = terminal_mouse_sequence(
            0,
            1,
            position,
            Modifiers::none(),
            TerminalModes::none(),
            TerminalMouseReportKind::Press,
        );
        assert_eq!(report.len(), 6);
        assert!(report[3..].iter().all(|byte| *byte >= 32));
    }
}

#[test]
fn hints_tell_what_is_missing() {
    let mut view = window();
    view.begin_connect_remote();
    assert_eq!(view.dialog_hint(), "Enter an SSH host or config alias to continue");
    assert_eq!(view.dialog_confirm_colors(&theme()), (11, 10));
    view.replace_text_in_range("host");
    assert_eq!(view.dialog_hint(), "");
    assert_eq!(view.dialog_confirm_colors(&theme()), (14, 15));
    view.cancel_dialog();
    view.begin_rename_workspace(LOCAL, WorkspaceId::new(1));
    assert_eq!(view.current_workspace_name(), "Current name: Workspace 1");
    assert_eq!(view.dialog_hint(), "");
    view.overlay.field.set("  ");
    assert_eq!(view.dialog_hint(), "Enter a name to rename this workspace");
    assert_eq!(view.dialog_confirm_label(), "Rename");
}

#[test]
fn releases_are_authoritative() {
    let terminal_id = TerminalId::new(41);
    let mut view = shell_window();
    keep(&mut view, grid(41));
    view.press_pane(PaneId::new(31), pointer_at(0.0, 0.0, 0.0), Modifiers::none());
    assert_eq!(view.press.dragging_terminal, Some(terminal_id));
    view.finish_terminal_selection(
        MouseButton::Left,
        Modifiers::none(),
        pointer_at(84.0, 20.0, 0.0),
    );
    let head = view.selection.unwrap().head;
    assert_eq!((head.position.row, head.position.column), (1, 10));
    assert_eq!(view.press.dragging_terminal, None);
}

#[test]
fn cells_are_reported_once() {
    let mut view = shell_window();
    let mut reporting = grid(41);
    reporting.modes = TerminalModes {
        mouse_reporting: true,
        mouse_drag: true,
        sgr_mouse: true,
        ..TerminalModes::none()
    };
    keep(&mut view, reporting);
    view.press_pane(PaneId::new(31), pointer_at(0.0, 0.0, 0.0), Modifiers::none());
    assert!(view.press.reported_mouse.is_some());
    view.take_effects();
    let here = pointer_at(12.0, 0.0, 0.0);
    view.update_reported_mouse(Some(MouseButton::Left), Modifiers::none(), here);
    assert_eq!(commands(&view.take_effects()).len(), 1);
    view.update_reported_mouse(Some(MouseButton::Left), Modifiers::none(), here);
    assert_eq!(commands(&view.take_effects()).len(), 0);
}

#[test]
fn running_agents_keep_their_screen() {
    let agent = AgentDump {
        pane_id: PaneId::new(31),
        terminal_id: TerminalId::new(41),
        workspace_id: WorkspaceId::new(1),
        kind: AgentKind::Pi,
        color_slot: 0,
        status: TerminalStatus::Running,
        active: true,
        cwd: "/home/me/water".to_owned(),
        display_label: "pi".to_owned(),
    };
    let snapshot = ModelSnapshot {
        state_revision: 1,
        workspace: None,
        workspaces: vec![workspace(1, "first", vec![tab(21, 31, 41)])],
        active_workspace: Some(WorkspaceId::new(1)),
        focused_pane: Some(PaneId::new(31)),
        agents: vec![agent],
    };
    let mut view = WorkspaceView::new(LOCAL_CLIENT, Arc::new(snapshot), config());
    let mut with_history = grid(41);
    with_history.rows_before.push(with_history.rows[0].clone());
    keep(&mut view, with_history);
    let edge = Some(EdgeProximity { has_height: true, near_top: true, near_bottom: false });
    assert_eq!(view.terminal_selection_autoscroll_delta(TerminalId::new(41), edge), None);
    let connection = view.connection_by_id(LOCAL).unwrap();
    let row = view.workspace_row(connection, &connection.snapshot.workspaces[0], &theme());
    assert_eq!(row.agents, vec![0]);
    assert_eq!(row.agent_count, Some(1));
    let agent = view.agent_row(LOCAL, &connection.snapshot.agents[0], 21, &theme());
    assert_eq!((agent.label.as_str(), agent.project.as_str()), ("pi", "water"));
    assert!(agent.focused);
}

#[test]
fn rows_show_their_place() {
    let mut view = window();
    view.press_agent_row(REMOTE, WorkspaceId::new(8), PaneId::new(5), nowhere());
    assert_eq!(view.active_connection, REMOTE);
    assert_eq!(view.selected_workspace, Some(WorkspaceId::new(8)));
    assert_eq!(view.focused_pane, Some(PaneId::new(5)));
    view.press_workspace_row(LOCAL, WorkspaceId::new(1), None, nowhere());
    assert_eq!(view.active_connection, LOCAL);
    assert_eq!(view.selected_workspace, Some(WorkspaceId::new(1)));
}

#[test]
fn titlebar_drags_once() {
    let moves = |effects: Vec<Effect>| {
        effects.iter().filter(|effect| matches!(effect, Effect::StartWindowMove)).count()
    };
    let mut view = window();
    view.press_titlebar(1);
    view.move_over_titlebar();
    view.move_over_titlebar();
    assert_eq!(moves(view.take_effects()), 1);
    view.press_titlebar(2);
    view.move_over_titlebar();
    assert_eq!(moves(view.take_effects()), 0);
}

#[test]
fn lookups_are_scoped() {
    let view = window();
    assert!(view.workspace_by_id_in(REMOTE, WorkspaceId::new(7)).is_some());
    assert!(view.workspace_by_id_in(LOCAL, WorkspaceId::new(7)).is_none());
    assert!(view.workspace_by_id_in(ConnectionId::new(3), WorkspaceId::new(7)).is_none());
    assert!(view.agent_by_pane_id_in(LOCAL, PaneId::new(1)).is_none());
}

#[test]
fn chunks_hold_the_row() {
    let mut snapshot = TerminalSnapshot::empty(TerminalId::new(1), TerminalSize::new(6, 1));
    for (column, character) in "ab·cd".chars().enumerate() {
        Arc::make_mut(&mut snapshot.rows[0])[column].character = character;
    }
    Arc::make_mut(&mut snapshot.rows[0])[1].flags.bold = true;
    let options = TerminalRenderOptions { theme: theme(), cursor_focused: true };
    let (chunks, backgrounds) = terminal_row_data(&snapshot, 0, None, &options);
    let text: String = chunks.iter().map(|chunk| chunk.text.as_str()).collect();
    assert_eq!(text, "ab·cd ");
    for chunk in &chunks {
        let bytes: usize = chunk.runs.iter().map(|run| run.len).sum();
        assert_eq!(bytes, chunk.text.len());
        let cells: String = chunk.cells.iter().map(|cell| cell.text.as_str()).collect();
        assert_eq!(cells, chunk.text);
    }
    for span in &backgrounds {
        assert!(span.start_column + span.width_columns <= 6);
    }
}

#[test]
fn visible_rows_fill_the_screen() {
    for rows in [0.0, 0.5, -0.5, 3.0, 7.25, -2.75] {
        let visible = terminal_visible_source_rows(4, measured(rows));
        let whole = if rows.fract() == 0.0 { 4 } else { 5 };
        assert_eq!(visible.len(), whole);
        let prepared = terminal_prepared_source_rows(visible.clone(), -40, 44);
        assert!(prepared.start <= visible.start && visible.end <= prepared.end);
    }
}

#[test]
fn selections_do_not_depend_on_their_direction() {
    let snapshot = {
        let mut snapshot = TerminalSnapshot::empty(TerminalId::new(1), TerminalSize::new(8, 2));
        for (column, character) in "hello".chars().enumerate() {
            Arc::make_mut(&mut snapshot.rows[0])[column].character = character;
        }
        snapshot
    };
    let at = |row: i32, column: usize| TerminalSelectionEndpoint {
        position: TerminalCellPosition { row, column },
        side: TerminalSelectionSide::Left,
    };
    let forth =
        TerminalSelection { terminal_id: TerminalId::new(1), anchor: at(0, 1), head: at(0, 4) };
    let back =
        TerminalSelection { terminal_id: TerminalId::new(1), anchor: at(0, 4), head: at(0, 1) };
    assert_eq!(selected_terminal_text(&snapshot, forth), "ell");
    assert_eq!(selected_terminal_text(&snapshot, back), "ell");
    let click = terminal_selection_after_click(None, TerminalId::new(1), at(0, 2), false);
    assert!(selection_bounds(&snapshot, click).is_none());
    let mut moved = forth;
    shift_terminal_selection_rows(&mut moved, 12);
    assert_ne!(moved, forth);
    shift_terminal_selection_rows(&mut moved, -12);
    assert_eq!(moved, forth);
}

#[test]
fn dropping_keeps_the_edge() {
    let items = ["a", "b", "c", "d"];
    for source in 0..items.len() {
        for boundary in 0..=items.len() {
            let target = sidebar_reorder_final_index(source, boundary, items.len());
            let mut order: Vec<&str> = items.to_vec();
            let moved = order.remove(source);
            order.insert(target, moved);
            for (other, name) in items.iter().enumerate() {
                if other != source {
                    let place = order.iter().position(|item| item == name).unwrap();
                    assert_eq!(place < target, other < boundary);
                }
            }
        }
    }
}

#[test]
fn project_names_hold_no_slash() {
    for path in ["", "/", "//", "/a", "/a/b//", "a/b c"] {
        assert!(!project_name(path).contains('/'));
    }
}

#[test]
fn activation_is_idempotent() {
    let mut view = shell_window();
    assert!(view.apply_workspace_activated_locally(WorkspaceId::new(2)));
    assert!(!view.apply_workspace_activated_locally(WorkspaceId::new(2)));
    assert_eq!(view.selected_workspace, Some(WorkspaceId::new(2)));
    view.apply_operation_result(OperationResult::TabClosed);
    view.apply_operation_result(OperationResult::PaneCreated { pane_id: PaneId::new(77) });
    assert_eq!(view.selected_workspace, Some(WorkspaceId::new(2)));
}

#[test]
fn normalized_ranges_are_readable() {
    let text = "a界😀z";
    for start in 0..7 {
        for end in 0..7 {
            let range = normalize_utf16_range(std::ops::Range { start, end }, 5);
            let from = utf16_offset_to_byte(text, range.start);
            let to = utf16_offset_to_byte_end(text, range.end);
            assert!(text.get(from..to).is_some());
        }
    }
    let once = trim_chars(&chars_of("\t a b \n"));
    assert_eq!(trim_chars(&once), once);
}

#[test]
fn terminals_scroll_on_their_own() {
    let mut view = shell_window();
    keep(&mut view, grid(41));
    view.scrolling.scroll_accumulators.insert(42, TerminalScrollState::new(5));
    let step = ScrollStep { usable: true, from_current: measured(3.5), from_rest: measured(3.5) };
    view.wheel_terminal(TerminalId::new(41), PaneId::new(31), &step);
    view.focus_terminal_live_bottom(TerminalId::new(41));
    assert_eq!(
        view.scrolling.scroll_accumulators.get(&42),
        Some(&TerminalScrollState::new(5))
    );
}

#[test]
fn output_keeps_the_reading_position() {
    let terminal_id = TerminalId::new(41);
    let mut view = shell_window();
    view.has_application = true;
    let mut reading = grid(41);
    reading.viewport_position = 6;
    keep(&mut view, reading);
    assert!(view.begin_terminal_event(terminal_id));
    let state = view.scrolling.scroll_accumulators.get(&terminal_id.raw);
    assert!(state.is_none_or(|state| state.observed_viewport_position == 6
        && state.visual_unacked_rows == RowOffset::Rows(0)));
}
