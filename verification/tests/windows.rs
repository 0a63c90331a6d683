//! One window and the servers it shows.

use std::collections::BTreeMap;
use std::sync::Arc;
use water_workspace::command::AppCommand;
use water_workspace::command::Effect;
use water_workspace::command::FocusDirection;
use water_workspace::command::OperationResult;
use water_workspace::command::SplitDirection;
use water_workspace::dialogs::DestinationCheck;
use water_workspace::ids::ConnectionId;
use water_workspace::ids::PaneId;
use water_workspace::ids::TabId;
use water_workspace::ids::TerminalId;
use water_workspace::ids::TransportId;
use water_workspace::ids::WorkspaceId;
use water_workspace::keyboard::ShortcutMatches;
use water_workspace::keys::Keystroke;
use water_workspace::keys::Modifiers;
use water_workspace::menus::MenuItem;
use water_workspace::menus::WindowAction;
use water_workspace::model::AgentDump;
use water_workspace::model::AgentKind;
use water_workspace::model::ModelSnapshot;
use water_workspace::model::PaneTreeDump;
use water_workspace::model::SplitAxis;
use water_workspace::model::SurfaceKind;
use water_workspace::model::SurfaceState;
use water_workspace::model::TabDump;
use water_workspace::model::TerminalProjection;
use water_workspace::model::TerminalStatus;
use water_workspace::model::WorkspaceDump;
use water_workspace::mouse::MouseButton;
use water_workspace::mouse::TerminalMousePosition;
use water_workspace::mouse::TouchPhase;
use water_workspace::offset::RowOffset;
use water_workspace::panels::MainContent;
use water_workspace::panels::Overlay;
use water_workspace::pointer::DragKind;
use water_workspace::pointer::EdgeProximity;
use water_workspace::pointer::TerminalPointer;
use water_workspace::pointer::WheelOutcome;
use water_workspace::pointer::WheelTurn;
use water_workspace::scroll::ScrollStep;
use water_workspace::scroll::TerminalScrollState;
use water_workspace::selection::TerminalSelectionSide;
use water_workspace::terminal::TerminalCell;
use water_workspace::terminal::TerminalModes;
use water_workspace::terminal::TerminalSize;
use water_workspace::terminal::TerminalSnapshot;
use water_workspace::view::ContextMenuTarget;
use water_workspace::view::DialogState;
use water_workspace::view::PointerPosition;
use water_workspace::view::RenameTarget;
use water_workspace::view::SplitRect;
use water_workspace::view::ViewConfig;
use water_workspace::view::WorkspaceConnection;
use water_workspace::view::WorkspaceConnectionKind;
use water_workspace::view::WorkspaceView;

const LOCAL: ConnectionId = ConnectionId { raw: 1 };
const REMOTE: ConnectionId = ConnectionId { raw: 2 };
const LOCAL_CLIENT: TransportId = TransportId { raw: 11 };
const REMOTE_CLIENT: TransportId = TransportId { raw: 12 };

fn config() -> ViewConfig {
    ViewConfig {
        mouse_reporting: true,
        selection: true,
        bracketed_paste: true,
        sidebar_visible: true,
        sidebar_show_agent_count: true,
        sidebar_width: 220.0_f32.to_bits(),
    }
}

fn measured(rows: f32) -> RowOffset {
    RowOffset::Measured(rows.to_bits())
}

fn leaf(pane: u128, terminal: u128) -> PaneTreeDump {
    PaneTreeDump::Leaf {
        pane_id: PaneId::new(pane),
        surface_kind: SurfaceKind::Terminal,
        surface_state: SurfaceState::Terminal {
            terminal_id: TerminalId::new(terminal),
            columns: 80,
            lines: 24,
        },
        terminal: Some(TerminalProjection { terminal_id: TerminalId::new(terminal) }),
    }
}

fn tab(id: u128, pane: u128, terminal: u128) -> TabDump {
    TabDump {
        id: TabId::new(id),
        title: format!("tab {id}"),
        active_pane: PaneId::new(pane),
        tree: leaf(pane, terminal),
    }
}

fn workspace(id: u128, title: &str, tabs: Vec<TabDump>) -> WorkspaceDump {
    WorkspaceDump {
        id: WorkspaceId::new(id),
        title: title.to_owned(),
        active_tab: tabs.first().map(|tab| tab.id),
        tabs,
    }
}

fn state(revision: u64, workspaces: Vec<WorkspaceDump>) -> Arc<ModelSnapshot> {
    let active_workspace = workspaces.first().map(|workspace| workspace.id);
    let focused_pane = workspaces
        .first()
        .and_then(|workspace| workspace.tabs.first())
        .map(|tab| tab.active_pane);
    Arc::new(ModelSnapshot {
        state_revision: revision,
        workspace: None,
        workspaces,
        active_workspace,
        focused_pane,
        agents: Vec::new(),
    })
}

/// A workspace with two tabs, and one without any.
fn shells(revision: u64) -> Arc<ModelSnapshot> {
    state(
        revision,
        vec![
            workspace(1, "first", vec![tab(21, 31, 41), tab(22, 32, 42)]),
            workspace(2, "second", vec![]),
        ],
    )
}

fn connections() -> Vec<WorkspaceConnection> {
    vec![
        WorkspaceConnection {
            id: LOCAL,
            title: "Local".to_owned(),
            kind: WorkspaceConnectionKind::Local,
            client: LOCAL_CLIENT,
            snapshot: state(1, vec![workspace(1, "Workspace 1", vec![])]),
        },
        WorkspaceConnection {
            id: REMOTE,
            title: "build-box".to_owned(),
            kind: WorkspaceConnectionKind::Remote,
            client: REMOTE_CLIENT,
            snapshot: state(
                1,
                vec![
                    workspace(7, "Workspace 1", vec![]),
                    workspace(8, "Workspace 2", vec![]),
                ],
            ),
        },
    ]
}

fn window() -> WorkspaceView {
    WorkspaceView::new_with_connections(false, connections(), LOCAL, config())
}

fn shell_window() -> WorkspaceView {
    WorkspaceView::new(LOCAL_CLIENT, shells(1), config())
}

fn grid(terminal: u128) -> TerminalSnapshot {
    TerminalSnapshot::empty(TerminalId::new(terminal), TerminalSize::new(80, 24))
}

fn keep(view: &mut WorkspaceView, grid: TerminalSnapshot) {
    let terminal_id = grid.terminal_id;
    view.keep_terminal_snapshot(terminal_id, &Arc::new(grid));
}

fn pressed(key: &str, key_char: Option<&str>) -> Keystroke {
    Keystroke {
        key: key.to_owned(),
        key_char: key_char.map(str::to_owned),
        modifiers: Modifiers::none(),
    }
}

fn no_shortcut() -> ShortcutMatches {
    ShortcutMatches {
        focus_left: false,
        focus_right: false,
        focus_up: false,
        focus_down: false,
        close_pane: false,
        paste: false,
        copy_or_interrupt: false,
        eof: false,
        scroll_page_up: false,
        scroll_page_down: false,
    }
}

fn unchecked() -> DestinationCheck {
    DestinationCheck::Invalid { message: "not a destination".to_owned() }
}

fn valid(destination: &str) -> DestinationCheck {
    DestinationCheck::Valid { destination: destination.to_owned() }
}

fn nothing_rebased() -> BTreeMap<u128, RowOffset> {
    BTreeMap::new()
}

fn commands(effects: &[Effect]) -> Vec<AppCommand> {
    effects
        .iter()
        .filter_map(|effect| match effect {
            Effect::Dispatch { command, .. } | Effect::Enqueue { command, .. } => {
                Some(command.clone())
            }
            _ => None,
        })
        .collect()
}

/// A pointer on a grid of cells of eight by sixteen pixels at the origin.
fn pointer_at(x: f32, y: f32, offset: f32) -> TerminalPointer {
    let column = (x / 8.0).floor();
    let side = if x - column * 8.0 < 4.0 {
        TerminalSelectionSide::Left
    } else {
        TerminalSelectionSide::Right
    };
    let translated = y - (offset - offset.trunc()) * 16.0;
    TerminalPointer {
        mouse: TerminalMousePosition {
            column: column as usize + 1,
            row: (y / 16.0).floor() as usize + 1,
            side,
        },
        painted_row: Some(if translated < 0.0 { -1 } else { (translated / 16.0).floor() as i32 }),
    }
}

fn nowhere() -> PointerPosition {
    PointerPosition { x: 0, y: 0 }
}

#[test]
fn windows_switch_shared_connection_projections_without_cross_talk() {
    let shown = |view: &WorkspaceView| (view.active_connection, view.snapshot.workspaces.len());
    let mut view = window();
    let mut other_view = window();
    assert_eq!(shown(&view), (LOCAL, 1));
    assert!(view.select_connection_locally(REMOTE));
    assert_eq!(shown(&view), (REMOTE, 2));

    assert_eq!(
        shown(&other_view),
        (LOCAL, 1),
        "switching one window must not change another window's projection"
    );
    assert!(other_view.select_connection_locally(REMOTE));
    assert!(view.select_connection_locally(LOCAL));
    assert_eq!(view.active_connection, LOCAL);
    assert_eq!(other_view.active_connection, REMOTE);

    view.remove_connection(REMOTE);
    assert_eq!(shown(&view), (LOCAL, 1));
}

#[test]
fn ime_composition_state_commits_once_to_the_focused_terminal() {
    let terminal_id = TerminalId::new(41);
    let mut view = shell_window();
    keep(&mut view, grid(41));
    view.ime.terminal = Some(terminal_id);
    view.replace_and_mark_text_in_range(None, "拼音", Some(2..2));
    assert_eq!(view.ime.marked_text, "拼音");
    assert_eq!(view.ime.selected_range, 2..2);

    view.take_effects();
    view.replace_text_in_range("print -r -- IME_中");
    assert!(view.ime.marked_text.is_empty());
    view.handle_key_down(&pressed("enter", None), no_shortcut(), unchecked());
    let sent: Vec<String> = commands(&view.take_effects())
        .into_iter()
        .filter_map(|command| match command {
            AppCommand::SendText { terminal_id: to, text, .. } if to == terminal_id => Some(text),
            _ => None,
        })
        .collect();
    assert_eq!(sent, vec!["print -r -- IME_中".to_owned(), "\r".to_owned()]);
}

#[test]
fn mouse_selection_begins_and_survives_reinstall() {
    let terminal_id = TerminalId::new(41);
    let mut view = shell_window();
    keep(&mut view, grid(41));
    view.begin_terminal_selection(terminal_id, pointer_at(12.0, 20.0, 0.0), false);
    let selection = view.selection.expect("mouse selection must begin on the shown tab");
    assert_eq!(selection.terminal_id, terminal_id);

    // A later state that still shows the terminal keeps the selection.
    view.install_snapshot(shells(2), &nothing_rebased());
    assert!(view.selection.is_some(), "selection must survive a snapshot reinstall");

    // So does the answer to focusing the pane that has the focus.
    let pane_id = view.focused_pane.unwrap();
    view.apply_operation_result(OperationResult::PaneFocused { pane_id });
    assert!(view.selection.is_some(), "selection must survive the PaneFocus operation result");
}

#[test]
fn mouse_selection_targets_the_scrolled_content() {
    let terminal_id = TerminalId::new(41);
    let mut view = shell_window();
    let mut snapshot = grid(41);
    snapshot.history_len = 40;
    for _ in 0..32 {
        snapshot.rows_before.push(Arc::new(vec![TerminalCell::blank(); 80]));
    }
    keep(&mut view, snapshot);
    let scroll = |view: &mut WorkspaceView, rows: f32| {
        let mut scrolled = TerminalScrollState::new(0);
        scrolled.visual_unacked_rows = measured(rows);
        view.scrolling.scroll_accumulators.insert(terminal_id.raw, scrolled);
    };
    let row = |view: &mut WorkspaceView, y: f32, offset: f32| {
        view.begin_terminal_selection(terminal_id, pointer_at(12.0, y, offset), false);
        view.selection
            .expect("mouse selection must begin on the shown tab")
            .anchor
            .position
            .row
    };

    // The picture has moved by two and a half rows.
    scroll(&mut view, 2.5);
    assert_eq!(
        row(&mut view, 20.0, 2.5),
        -2,
        "a pixel in the shifted grid must map to the painted source row"
    );
    assert_eq!(
        row(&mut view, 28.0, 2.5),
        -1,
        "the lower half after a fractional shift must map to the next painted row"
    );
    scroll(&mut view, 0.0);
    assert_eq!(
        row(&mut view, 36.0, 0.0),
        2,
        "the mapping is viewport-relative without an unacked offset"
    );
    assert_eq!(row(&mut view, 20.0, 0.0), 1, "pixel row 1 maps to the viewport top row");
    scroll(&mut view, 2.0);
    assert!(
        row(&mut view, 20.0, 2.0) < 0,
        "a whole-row unacked offset must shift the mapping into history"
    );
}

#[test]
fn rename_dialog_scopes_to_its_own_connection() {
    let remote_ws = WorkspaceId::new(7);
    let title = "Workspace 1";
    let mut view = window();
    view.begin_rename_workspace(REMOTE, remote_ws);
    assert_eq!(
        view.overlay.dialog,
        Some(DialogState::RenameWorkspace { connection_id: REMOTE, workspace_id: remote_ws })
    );
    assert_eq!(view.overlay.field.text(), title);
    assert_eq!(view.overlay.field.caret, title.len());
    assert!(
        view.overlay.rename_target.is_none(),
        "workspace rename no longer uses the inline row caret"
    );
    view.take_effects();
    view.confirm_dialog(unchecked());
    assert_eq!(
        commands(&view.take_effects()),
        vec![AppCommand::RenameWorkspace { workspace_id: remote_ws, title: title.to_owned() }],
        "confirming with the untouched name is a no-op rename"
    );

    view.begin_rename_workspace(REMOTE, remote_ws);
    view.overlay.field.set("Build box");
    view.overlay.field.set_caret(7);
    view.take_effects();
    view.confirm_dialog(unchecked());
    let effects = view.take_effects();
    assert_eq!(
        effects
            .iter()
            .filter(|effect| matches!(effect, Effect::Dispatch { .. }))
            .collect::<Vec<_>>(),
        vec![&Effect::Dispatch {
            transport: REMOTE_CLIENT,
            connection_id: REMOTE,
            command: AppCommand::RenameWorkspace {
                workspace_id: remote_ws,
                title: "Build box".to_owned(),
            },
        }]
    );
    view.finish_command(
        REMOTE,
        state(
            2,
            vec![workspace(7, "Build box", vec![]), workspace(8, "Workspace 2", vec![])],
        ),
        &nothing_rebased(),
        OperationResult::Other,
    );
    assert_eq!(view.overlay.dialog, None);
    assert_eq!(
        view.connection_by_id(REMOTE).unwrap().snapshot.workspaces[0].title,
        "Build box"
    );
    assert_eq!(
        view.connection_by_id(LOCAL).unwrap().snapshot.workspaces[0].title,
        title,
        "the colliding local workspace must stay untouched"
    );
}

#[test]
fn text_input_dialog_confirm_is_inert_while_empty() {
    let mut view = window();
    // Nothing entered: confirming keeps the dialog open.
    view.begin_connect_remote();
    view.confirm_dialog(valid(""));
    assert_eq!(view.overlay.dialog, Some(DialogState::ConnectRemote));
    assert!(!view.dialog_input_is_valid());
    view.cancel_dialog();

    view.begin_rename_workspace(REMOTE, WorkspaceId::new(99));
    assert!(
        view.overlay.dialog.is_none(),
        "renaming a workspace on a missing connection is a no-op"
    );
}

#[test]
fn dialog_input_caret_editing_follows_arrow_and_delete_keys() {
    let title = "Workspace 1";
    let mut view = window();
    view.begin_rename_workspace(LOCAL, WorkspaceId::new(1));
    view.handle_dialog_key(&pressed("left", None), unchecked());
    assert_eq!(view.overlay.field.caret, title.len() - 1);
    assert_eq!(
        view.overlay.field.parts(),
        (title[..title.len() - 1].to_owned(), "1".to_owned())
    );
    // Delete removes the character after the caret.
    view.handle_dialog_key(&pressed("delete", None), unchecked());
    assert_eq!(view.overlay.field.text(), "Workspace ");
    assert_eq!(view.overlay.field.caret, "Workspace ".len());
    view.handle_dialog_key(&pressed("home", None), unchecked());
    view.handle_dialog_key(&pressed("x", Some("x")), unchecked());
    assert_eq!(view.overlay.field.text(), "xWorkspace ");
    assert_eq!(view.overlay.field.caret, 1);
    view.cancel_dialog();
    assert!(view.overlay.dialog.is_none());
}

#[test]
fn new_windows_show_the_given_connection() {
    let view = shell_window();
    assert_eq!(view.client, LOCAL_CLIENT);
    assert_eq!(view.selected_workspace, Some(WorkspaceId::new(1)));
    assert_eq!(view.focused_pane, Some(PaneId::new(31)));
    assert!(!view.sidebar.sidebar_collapsed);
    let hidden = ViewConfig { sidebar_visible: false, ..config() };
    let view = WorkspaceView::new_with_config(LOCAL_CLIENT, shells(1), hidden);
    assert!(view.sidebar.sidebar_collapsed);
    assert_eq!(view.sidebar.sidebar_width, 220.0_f32.to_bits());
    let missing = WorkspaceView::new_with_connections(
        true,
        connections(),
        ConnectionId::new(99),
        config(),
    );
    assert_eq!(missing.active_connection, LOCAL);
}

#[test]
fn remote_connections_are_made_once() {
    let mut view = window();
    view.begin_connect_remote();
    view.replace_text_in_range("  build-box ");
    view.take_effects();
    view.confirm_dialog(unchecked());
    assert_eq!(view.overlay.remote_connection_error, Some("not a destination".to_owned()));
    assert!(!view.overlay.remote_connection_pending);
    view.take_effects();
    view.has_application = true;
    view.confirm_dialog(valid("build-box"));
    assert!(view.overlay.remote_connection_pending);
    assert!(
        view.take_effects()
            .contains(&Effect::ConnectRemote { destination: "build-box".to_owned() })
    );
    assert_eq!(view.dialog_confirm_label(), "Connecting…");
    view.confirm_dialog(valid("build-box"));
    assert!(
        !view
            .take_effects()
            .iter()
            .any(|effect| matches!(effect, Effect::ConnectRemote { .. }))
    );
    view.finish_remote_connection(Err("refused".to_owned()));
    assert_eq!(view.overlay.remote_connection_error, Some("refused".to_owned()));
    assert_eq!(view.overlay.dialog, Some(DialogState::ConnectRemote));
    assert_eq!(view.dialog_confirm_label(), "Connect");
    view.confirm_dialog(valid("build-box"));
    view.finish_remote_connection(Ok(REMOTE));
    assert_eq!(view.overlay.dialog, None);
    assert_eq!(view.active_connection, REMOTE);
}

#[test]
fn stale_states_are_ignored() {
    let mut view = WorkspaceView::new(LOCAL_CLIENT, shells(5), config());
    view.install_snapshot(state(4, vec![]), &nothing_rebased());
    assert_eq!(view.snapshot.state_revision, 5);
    view.install_snapshot(
        state(6, vec![workspace(2, "second", vec![])]),
        &nothing_rebased(),
    );
    assert_eq!(view.snapshot.state_revision, 6);
    assert_eq!(view.selected_workspace, Some(WorkspaceId::new(2)));
    assert_eq!(view.focused_pane, None);
}

#[test]
fn quick_steps_through_tabs_add_up() {
    let mut view = shell_window();
    view.activate_relative_tab(1);
    view.activate_relative_tab(1);
    assert_eq!(
        commands(&view.take_effects()),
        vec![
            AppCommand::ActivateTab { tab_id: TabId::new(22) },
            AppCommand::ActivateTab { tab_id: TabId::new(21) },
        ]
    );
    view.activate_tab_index(1);
    view.activate_tab_index(9);
    assert_eq!(
        commands(&view.take_effects()),
        vec![AppCommand::ActivateTab { tab_id: TabId::new(22) }]
    );
}

#[test]
fn window_actions_ask_the_server() {
    let mut view = shell_window();
    view.perform_action(WindowAction::NewTerminalTab);
    view.perform_action(WindowAction::SplitRight);
    view.perform_action(WindowAction::SplitDown);
    assert_eq!(
        commands(&view.take_effects()),
        vec![
            AppCommand::NewTab { workspace_id: WorkspaceId::new(1) },
            AppCommand::SplitPane {
                pane_id: PaneId::new(31),
                direction: SplitDirection::Right,
            },
            AppCommand::SplitPane {
                pane_id: PaneId::new(31),
                direction: SplitDirection::Down,
            },
        ]
    );
    view.perform_action(WindowAction::ToggleSidebar);
    assert!(view.sidebar.sidebar_collapsed);
    view.perform_action(WindowAction::RenameTab);
    assert_eq!(
        view.overlay.rename_target,
        Some(RenameTarget::Tab { tab_id: TabId::new(21) })
    );
    view.take_effects();
    view.perform_action(WindowAction::NewTerminalTab);
    assert!(commands(&view.take_effects()).is_empty());
}

#[test]
fn tabs_are_renamed_in_place() {
    let mut view = shell_window();
    view.begin_rename_tab(TabId::new(22));
    view.handle_rename_key(&pressed("backspace", None));
    view.handle_rename_key(&pressed("x", Some("x")));
    view.take_effects();
    view.handle_rename_key(&pressed("enter", None));
    assert_eq!(
        commands(&view.take_effects()),
        vec![AppCommand::RenameTab { tab_id: TabId::new(22), title: "tab 2x".to_owned() }]
    );
    assert_eq!(view.overlay.rename_target, None);
    view.begin_rename_tab(TabId::new(99));
    assert_eq!(view.overlay.rename_target, None);
}

#[test]
fn closing_a_workspace_asks_first() {
    let mut view = shell_window();
    view.request_close_workspace(WorkspaceId::new(1));
    assert_eq!(
        view.close_workspace_question(),
        Some("Close “first” and its 2 tabs?".to_owned())
    );
    assert_eq!(view.top_overlay(), Overlay::Dialog);
    view.take_effects();
    view.handle_key_down(&pressed("enter", None), no_shortcut(), unchecked());
    assert_eq!(
        commands(&view.take_effects()),
        vec![AppCommand::CloseWorkspace { workspace_id: WorkspaceId::new(1) }]
    );
    assert_eq!(view.top_overlay(), Overlay::Nothing);
}

#[test]
fn menus_close_when_an_item_is_chosen() {
    let mut view = shell_window();
    let target = ContextMenuTarget::Tab { tab_id: TabId::new(21) };
    view.open_context_menu(target, nowhere());
    assert_eq!(view.top_overlay(), Overlay::Menu);
    view.take_effects();
    view.choose_menu_item(target, MenuItem::CloseTab);
    assert_eq!(
        commands(&view.take_effects()),
        vec![AppCommand::CloseTab { tab_id: TabId::new(21) }]
    );
    assert_eq!(view.top_overlay(), Overlay::Nothing);
}

#[test]
fn panes_take_their_keys() {
    let mut view = shell_window();
    keep(&mut view, grid(41));
    let left = ShortcutMatches { focus_left: true, ..no_shortcut() };
    view.handle_key_down(&pressed("left", None), left, unchecked());
    assert_eq!(
        commands(&view.take_effects()),
        vec![AppCommand::FocusPane {
            pane_id: PaneId::new(31),
            towards: Some(FocusDirection::Left),
        }]
    );
    view.handle_key_down(&pressed("up", None), no_shortcut(), unchecked());
    assert!(commands(&view.take_effects()).contains(&AppCommand::SendText {
        terminal_id: TerminalId::new(41),
        source: None,
        text: "\u{1b}[A".to_owned(),
    }));
    let paste = ShortcutMatches { paste: true, ..no_shortcut() };
    view.handle_key_down(&pressed("v", None), paste, unchecked());
    assert!(view.take_effects().contains(&Effect::Paste {
        transport: LOCAL_CLIENT,
        terminal_id: TerminalId::new(41),
        bracketed: false,
    }));
}

#[test]
fn typing_returns_to_the_live_bottom() {
    let mut view = shell_window();
    view.has_application = true;
    let mut scrolled = grid(41);
    scrolled.viewport_position = 3;
    scrolled.display_offset = 3;
    keep(&mut view, scrolled);
    view.handle_key_down(&pressed("up", None), no_shortcut(), unchecked());
    assert!(view.take_effects().contains(&Effect::ScrollTo {
        connection_id: LOCAL,
        terminal_id: TerminalId::new(41),
        target: 0,
    }));
    let mut resting = shell_window();
    resting.has_application = true;
    keep(&mut resting, grid(41));
    resting.handle_key_down(&pressed("up", None), no_shortcut(), unchecked());
    assert!(
        !resting
            .take_effects()
            .iter()
            .any(|effect| matches!(effect, Effect::ScrollTo { .. }))
    );
}

#[test]
fn wheels_move_the_picture_and_ask_once_per_frame() {
    let terminal_id = TerminalId::new(41);
    let pane_id = PaneId::new(31);
    let mut view = shell_window();
    view.has_application = true;
    let mut snapshot = grid(41);
    snapshot.history_len = 100;
    snapshot.rows_before.push(Arc::new(vec![TerminalCell::blank(); 80]));
    keep(&mut view, snapshot);
    let turn = WheelTurn {
        in_pixels: true,
        phase: TouchPhase::Started,
        moves: true,
        more_than_a_row: false,
        lines: 1,
        mouse: pointer_at(0.0, 0.0, 0.0).mouse,
        modifiers: Modifiers::none(),
        modes: TerminalModes::none(),
    };
    assert_eq!(view.turn_wheel(pane_id, turn), WheelOutcome::Glide { terminal_id });
    view.take_effects();
    for rows in [1.5, 2.5] {
        let step = ScrollStep {
            usable: true,
            from_current: measured(rows),
            from_rest: measured(1.0),
        };
        assert!(view.wheel_terminal(terminal_id, pane_id, &step));
    }
    assert_eq!(
        view.take_effects()
            .iter()
            .filter(|effect| matches!(effect, Effect::RequestViewportFrame))
            .count(),
        1
    );
    assert_eq!(
        view.scrolling.pending_viewport_requests.get(&terminal_id.raw),
        Some(&(pane_id, 2))
    );
    view.run_viewport_frame();
    assert!(view.take_effects().contains(&Effect::ScrollTo {
        connection_id: LOCAL,
        terminal_id,
        target: 2,
    }));
    assert!(view.scrolling.pending_viewport_requests.is_empty());
}

#[test]
fn programs_that_report_the_mouse_get_the_wheel() {
    let mut view = shell_window();
    let modes = TerminalModes {
        mouse_reporting: true,
        sgr_mouse: true,
        ..TerminalModes::none()
    };
    let mut reporting = grid(41);
    reporting.modes = modes;
    keep(&mut view, reporting);
    let turn = WheelTurn {
        in_pixels: false,
        phase: TouchPhase::Moved,
        moves: true,
        more_than_a_row: false,
        lines: 1,
        mouse: pointer_at(0.0, 0.0, 0.0).mouse,
        modifiers: Modifiers::none(),
        modes,
    };
    assert_eq!(view.turn_wheel(PaneId::new(31), turn), WheelOutcome::Sent);
    assert!(commands(&view.take_effects()).iter().any(|command| matches!(
        command,
        AppCommand::SendBytes { bytes, .. } if bytes == b"\x1b[<64;1;1M"
    )));
}

#[test]
fn selections_are_copied_where_there_is_text() {
    let terminal_id = TerminalId::new(41);
    let mut view = shell_window();
    let mut written = grid(41);
    for (column, character) in "hello".chars().enumerate() {
        Arc::make_mut(&mut written.rows[0])[column].character = character;
    }
    keep(&mut view, written);
    assert!(!view.copy_terminal_selection(terminal_id));
    view.begin_terminal_selection(terminal_id, pointer_at(0.0, 0.0, 0.0), false);
    view.update_terminal_selection_head(terminal_id, pointer_at(39.0, 0.0, 0.0));
    view.take_effects();
    assert!(view.copy_terminal_selection(terminal_id));
    assert!(
        view.take_effects()
            .contains(&Effect::WriteClipboard { text: "hello".to_owned() })
    );
}

#[test]
fn dragging_past_the_edge_scrolls() {
    let terminal_id = TerminalId::new(41);
    let mut view = shell_window();
    view.has_application = true;
    let edge = Some(EdgeProximity { has_height: true, near_top: true, near_bottom: false });
    keep(&mut view, grid(41));
    assert_eq!(view.terminal_selection_autoscroll_delta(terminal_id, edge), None);
    let mut with_history = grid(41);
    with_history.rows_before.push(Arc::new(vec![TerminalCell::blank(); 80]));
    keep(&mut view, with_history);
    assert_eq!(view.terminal_selection_autoscroll_delta(terminal_id, edge), Some(3));
    view.press_pane(PaneId::new(31), pointer_at(12.0, 20.0, 0.0), Modifiers::none());
    assert_eq!(view.current_drag(), DragKind::Terminal);
    view.take_effects();
    view.update_terminal_selection(
        nowhere(),
        Some(MouseButton::Left),
        Modifiers::none(),
        pointer_at(12.0, 0.0, 0.0),
        edge,
    );
    assert!(view.take_effects().contains(&Effect::RequestAutoscrollFrame));
    view.run_selection_autoscroll_frame(edge, pointer_at(12.0, 0.0, 0.0));
    assert!(view.take_effects().contains(&Effect::ScrollBy {
        connection_id: LOCAL,
        terminal_id,
        delta: 3,
    }));
    view.release_left_button(Modifiers::none(), pointer_at(12.0, 0.0, 0.0));
    assert_eq!(view.press.dragging_terminal, None);
    assert_eq!(view.press.selection_autoscroll, None);
}

#[test]
fn dividers_preview_and_commit_their_ratio() {
    let mut tabs = vec![tab(21, 31, 41)];
    tabs[0].tree = PaneTreeDump::Split {
        axis: SplitAxis::Horizontal,
        ratio: 0.5_f32.to_bits(),
        first: Box::new(leaf(31, 41)),
        second: Box::new(leaf(32, 42)),
    };
    let mut view = WorkspaceView::new(
        LOCAL_CLIENT,
        state(1, vec![workspace(1, "first", tabs)]),
        config(),
    );
    let rect = SplitRect { origin: 0.0_f32.to_bits(), extent: 100.0_f32.to_bits() };
    view.press_divider(
        TabId::new(21),
        vec![],
        SplitAxis::Horizontal,
        Some(rect),
        50.0_f32.to_bits(),
    );
    assert_eq!(view.current_drag(), DragKind::Divider);
    let shown = |view: &WorkspaceView| {
        f32::from_bits(view.shown_split_ratio(
            TabId::new(21),
            &vec![],
            SplitAxis::Horizontal,
            0.5_f32.to_bits(),
        ))
    };
    assert_eq!(shown(&view), 0.5);
    view.move_divider(0.25_f32.to_bits());
    assert_eq!(shown(&view), 0.25);
    view.take_effects();
    view.finish_split_drag();
    assert_eq!(
        commands(&view.take_effects()),
        vec![AppCommand::ResizeSplit {
            tab_id: TabId::new(21),
            path: vec![],
            ratio: 0.25_f32.to_bits(),
        }]
    );
    assert_eq!(shown(&view), 0.5);
}

#[test]
fn grids_arrive_where_they_are_shown() {
    let terminal_id = TerminalId::new(41);
    let mut view = WorkspaceView::new_with_connections(
        true,
        vec![WorkspaceConnection {
            id: LOCAL,
            title: "Local".to_owned(),
            kind: WorkspaceConnectionKind::Local,
            client: LOCAL_CLIENT,
            snapshot: shells(1),
        }],
        LOCAL,
        config(),
    );
    assert!(view.needs_terminal_snapshot(terminal_id));
    assert!(view.begin_terminal_event(terminal_id));
    assert!(!view.begin_terminal_event(TerminalId::new(42)));
    view.finish_terminal_event(terminal_id, Some(Arc::new(grid(41))), RowOffset::zero());
    assert!(!view.needs_terminal_snapshot(terminal_id));
    assert_eq!(
        view.cached_terminal_snapshot(terminal_id).map(|grid| grid.terminal_id),
        Some(terminal_id)
    );
    view.begin_drawing();
    assert_eq!(view.input_handler_terminal, Some(terminal_id));
}

#[test]
fn main_content_follows_the_selection() {
    let mut view = shell_window();
    assert_eq!(view.main_content(), MainContent::Tab { tab_id: TabId::new(21) });
    assert!(view.select_workspace_locally(WorkspaceId::new(2)));
    assert_eq!(view.main_content(), MainContent::NoTab);
    let empty = WorkspaceView::new(LOCAL_CLIENT, state(1, vec![]), config());
    assert_eq!(empty.main_content(), MainContent::NoWorkspace);
}

#[test]
fn agents_keep_the_wheel_of_their_screen() {
    let mut snapshot = ModelSnapshot {
        state_revision: 1,
        workspace: None,
        workspaces: vec![workspace(1, "first", vec![tab(21, 31, 41)])],
        active_workspace: Some(WorkspaceId::new(1)),
        focused_pane: Some(PaneId::new(31)),
        agents: Vec::new(),
    };
    snapshot.agents.push(AgentDump {
        pane_id: PaneId::new(31),
        terminal_id: TerminalId::new(41),
        workspace_id: WorkspaceId::new(1),
        kind: AgentKind::Pi,
        color_slot: 0,
        status: TerminalStatus::Running,
        active: true,
        cwd: "/home/me/water".to_owned(),
        display_label: "pi".to_owned(),
    });
    let view = WorkspaceView::new(LOCAL_CLIENT, Arc::new(snapshot), config());
    assert!(view.pi_agent_running_for_pane(PaneId::new(31)));
    assert!(!view.pi_agent_running_for_pane(PaneId::new(32)));
    assert!(view.pi_agent_running_for_terminal(TerminalId::new(41)));
}
