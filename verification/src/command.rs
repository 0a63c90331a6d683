//! What a window asks of the world around it.

use crate::ids::ConnectionId;
use crate::ids::PaneId;
use crate::ids::TabId;
use crate::ids::TerminalId;
use crate::ids::TransportId;
use crate::ids::WorkspaceId;
use vstd::prelude::*;

verus! {

#[derive(Clone, Copy, PartialEq, Eq, Structural, Debug)]
pub enum FocusDirection {
    Left,
    Right,
    Up,
    Down,
}

#[derive(Clone, Copy, PartialEq, Eq, Structural, Debug)]
pub enum SplitDirection {
    Right,
    Down,
}

/// A command for a server.
#[derive(Clone, Debug, PartialEq, Eq)]
pub enum AppCommand {
    ActivateTab { tab_id: TabId },
    NewTab { workspace_id: WorkspaceId },
    RenameTab { tab_id: TabId, title: String },
    CloseTab { tab_id: TabId },
    SplitPane { pane_id: PaneId, direction: SplitDirection },
    FocusPane { pane_id: PaneId, towards: Option<FocusDirection> },
    ClosePane { pane_id: PaneId },
    /// `ratio` holds the bits of the share of the first part.
    ResizeSplit { tab_id: TabId, path: Vec<bool>, ratio: u32 },
    MovePane { pane_id: PaneId, workspace_id: WorkspaceId },
    RenameAgent { pane_id: PaneId, label: String },
    ActivateWorkspace { workspace_id: WorkspaceId },
    ReorderWorkspace { workspace_id: WorkspaceId, index: usize },
    CloseWorkspace { workspace_id: WorkspaceId },
    RenameWorkspace { workspace_id: WorkspaceId, title: String },
    SendText { terminal_id: TerminalId, source: Option<PaneId>, text: String },
    SendBytes { terminal_id: TerminalId, source: Option<PaneId>, bytes: Vec<u8> },
    ResizeTerminal { pane_id: PaneId, columns: usize, lines: usize },
}

/// A command with its texts as sequences.
#[verifier::ext_equal]
pub enum CommandModel {
    ActivateTab { tab_id: TabId },
    NewTab { workspace_id: WorkspaceId },
    RenameTab { tab_id: TabId, title: Seq<char> },
    CloseTab { tab_id: TabId },
    SplitPane { pane_id: PaneId, direction: SplitDirection },
    FocusPane { pane_id: PaneId, towards: Option<FocusDirection> },
    ClosePane { pane_id: PaneId },
    ResizeSplit { tab_id: TabId, path: Seq<bool>, ratio: u32 },
    MovePane { pane_id: PaneId, workspace_id: WorkspaceId },
    RenameAgent { pane_id: PaneId, label: Seq<char> },
    ActivateWorkspace { workspace_id: WorkspaceId },
    ReorderWorkspace { workspace_id: WorkspaceId, index: usize },
    CloseWorkspace { workspace_id: WorkspaceId },
    RenameWorkspace { workspace_id: WorkspaceId, title: Seq<char> },
    SendText { terminal_id: TerminalId, source: Option<PaneId>, text: Seq<char> },
    SendBytes { terminal_id: TerminalId, source: Option<PaneId>, bytes: Seq<u8> },
    ResizeTerminal { pane_id: PaneId, columns: usize, lines: usize },
}

impl View for AppCommand {
    type V = CommandModel;

    open spec fn view(&self) -> CommandModel {
        match *self {
            AppCommand::ActivateTab { tab_id } => CommandModel::ActivateTab { tab_id },
            AppCommand::NewTab { workspace_id } => CommandModel::NewTab { workspace_id },
            AppCommand::RenameTab { tab_id, title } => CommandModel::RenameTab {
                tab_id,
                title: title@,
            },
            AppCommand::CloseTab { tab_id } => CommandModel::CloseTab { tab_id },
            AppCommand::SplitPane { pane_id, direction } => CommandModel::SplitPane {
                pane_id,
                direction,
            },
            AppCommand::FocusPane { pane_id, towards } => CommandModel::FocusPane {
                pane_id,
                towards,
            },
            AppCommand::ClosePane { pane_id } => CommandModel::ClosePane { pane_id },
            AppCommand::ResizeSplit { tab_id, path, ratio } => CommandModel::ResizeSplit {
                tab_id,
                path: path@,
                ratio,
            },
            AppCommand::MovePane { pane_id, workspace_id } => CommandModel::MovePane {
                pane_id,
                workspace_id,
            },
            AppCommand::RenameAgent { pane_id, label } => CommandModel::RenameAgent {
                pane_id,
                label: label@,
            },
            AppCommand::ActivateWorkspace { workspace_id } => CommandModel::ActivateWorkspace {
                workspace_id,
            },
            AppCommand::ReorderWorkspace { workspace_id, index } => {
                CommandModel::ReorderWorkspace { workspace_id, index }
            },
            AppCommand::CloseWorkspace { workspace_id } => CommandModel::CloseWorkspace {
                workspace_id,
            },
            AppCommand::RenameWorkspace { workspace_id, title } => CommandModel::RenameWorkspace {
                workspace_id,
                title: title@,
            },
            AppCommand::SendText { terminal_id, source, text } => CommandModel::SendText {
                terminal_id,
                source,
                text: text@,
            },
            AppCommand::SendBytes { terminal_id, source, bytes } => CommandModel::SendBytes {
                terminal_id,
                source,
                bytes: bytes@,
            },
            AppCommand::ResizeTerminal { pane_id, columns, lines } => {
                CommandModel::ResizeTerminal { pane_id, columns, lines }
            },
        }
    }
}

/// Something that has to happen outside, in the order in which it was asked.
#[derive(Clone, Debug, PartialEq, Eq)]
pub enum Effect {
    /// Draw the window again.
    Notify,
    /// Keep the event from reaching anything else.
    StopPropagation,
    /// Give the window the keyboard.
    FocusWindow,
    /// Drop all painted rows.
    ClearRenderCaches,
    /// Bring an item of the tab strip into view.
    ScrollToTab { index: usize },
    /// Run a command on the server of a connection and report back.
    Dispatch { transport: TransportId, connection_id: ConnectionId, command: AppCommand },
    /// Create a workspace and report back.
    CreateWorkspace { transport: TransportId },
    /// Send a terminal command without waiting.
    Enqueue { transport: TransportId, command: AppCommand },
    /// Run a command and wait until it has ended, whatever comes of it.
    Run { transport: TransportId, command: AppCommand },
    /// Connect to a server and report back.
    ConnectRemote { destination: String },
    Disconnect { connection_id: ConnectionId },
    KillServer { connection_id: ConnectionId },
    /// Hold the viewport of a terminal while output arrives, or let it follow.
    PinViewport { connection_id: ConnectionId, terminal_id: TerminalId, pinned: bool },
    ScrollTo { connection_id: ConnectionId, terminal_id: TerminalId, target: i64 },
    ScrollBy { connection_id: ConnectionId, terminal_id: TerminalId, delta: i64 },
    /// Blink the caret of the dialog with this number while it is open.
    BlinkCaret { generation: u64 },
    WriteClipboard { text: String },
    /// Read the clipboard and send its text to a terminal.
    Paste { transport: TransportId, terminal_id: TerminalId, bracketed: bool },
    /// Call back with the next frame.
    RequestViewportFrame,
    RequestMouseScrollFrame,
    RequestAutoscrollFrame,
    /// Let the platform move the window.
    StartWindowMove,
    ZoomWindow,
}

/// An effect with its texts as sequences.
#[verifier::ext_equal]
pub enum EffectModel {
    Notify,
    StopPropagation,
    FocusWindow,
    ClearRenderCaches,
    ScrollToTab { index: usize },
    Dispatch { transport: TransportId, connection_id: ConnectionId, command: CommandModel },
    CreateWorkspace { transport: TransportId },
    Enqueue { transport: TransportId, command: CommandModel },
    Run { transport: TransportId, command: CommandModel },
    ConnectRemote { destination: Seq<char> },
    Disconnect { connection_id: ConnectionId },
    KillServer { connection_id: ConnectionId },
    PinViewport { connection_id: ConnectionId, terminal_id: TerminalId, pinned: bool },
    ScrollTo { connection_id: ConnectionId, terminal_id: TerminalId, target: i64 },
    ScrollBy { connection_id: ConnectionId, terminal_id: TerminalId, delta: i64 },
    BlinkCaret { generation: u64 },
    WriteClipboard { text: Seq<char> },
    Paste { transport: TransportId, terminal_id: TerminalId, bracketed: bool },
    RequestViewportFrame,
    RequestMouseScrollFrame,
    RequestAutoscrollFrame,
    StartWindowMove,
    ZoomWindow,
}

impl View for Effect {
    type V = EffectModel;

    open spec fn view(&self) -> EffectModel {
        match *self {
            Effect::Notify => EffectModel::Notify,
            Effect::StopPropagation => EffectModel::StopPropagation,
            Effect::FocusWindow => EffectModel::FocusWindow,
            Effect::ClearRenderCaches => EffectModel::ClearRenderCaches,
            Effect::ScrollToTab { index } => EffectModel::ScrollToTab { index },
            Effect::Dispatch { transport, connection_id, command } => EffectModel::Dispatch {
                transport,
                connection_id,
                command: command@,
            },
            Effect::CreateWorkspace { transport } => EffectModel::CreateWorkspace { transport },
            Effect::Enqueue { transport, command } => EffectModel::Enqueue {
                transport,
                command: command@,
            },
            Effect::Run { transport, command } => EffectModel::Run { transport, command: command@ },
            Effect::ConnectRemote { destination } => EffectModel::ConnectRemote {
                destination: destination@,
            },
            Effect::Disconnect { connection_id } => EffectModel::Disconnect { connection_id },
            Effect::KillServer { connection_id } => EffectModel::KillServer { connection_id },
            Effect::PinViewport { connection_id, terminal_id, pinned } => {
                EffectModel::PinViewport { connection_id, terminal_id, pinned }
            },
            Effect::ScrollTo { connection_id, terminal_id, target } => EffectModel::ScrollTo {
                connection_id,
                terminal_id,
                target,
            },
            Effect::ScrollBy { connection_id, terminal_id, delta } => EffectModel::ScrollBy {
                connection_id,
                terminal_id,
                delta,
            },
            Effect::BlinkCaret { generation } => EffectModel::BlinkCaret { generation },
            Effect::WriteClipboard { text } => EffectModel::WriteClipboard { text: text@ },
            Effect::Paste { transport, terminal_id, bracketed } => EffectModel::Paste {
                transport,
                terminal_id,
                bracketed,
            },
            Effect::RequestViewportFrame => EffectModel::RequestViewportFrame,
            Effect::RequestMouseScrollFrame => EffectModel::RequestMouseScrollFrame,
            Effect::RequestAutoscrollFrame => EffectModel::RequestAutoscrollFrame,
            Effect::StartWindowMove => EffectModel::StartWindowMove,
            Effect::ZoomWindow => EffectModel::ZoomWindow,
        }
    }
}

/// What a server did, as far as a window cares.
#[derive(Clone, Copy, PartialEq, Eq, Structural, Debug)]
pub enum OperationResult {
    PaneCreated { pane_id: PaneId },
    PaneFocused { pane_id: PaneId },
    PaneClosed,
    TabClosed,
    TabActivated { tab_id: TabId },
    TabCreated { tab_id: TabId },
    WorkspaceActivated { workspace_id: WorkspaceId },
    WorkspaceCreated { workspace_id: WorkspaceId },
    /// Anything that leaves the window as it is.
    Other,
}

/// How a command ended on a server.
#[derive(Clone, Copy, PartialEq, Eq, Structural, Debug)]
pub struct Operation {
    pub finished: bool,
    pub failed: bool,
    pub result: Option<OperationResult>,
}

impl Operation {
    /// The command was carried out.
    pub open spec fn succeeded(self) -> bool {
        self.finished && !self.failed
    }

    /// What the command did, if it was carried out.
    pub fn outcome(&self) -> (outcome: Option<OperationResult>)
        ensures
            outcome == (if self.succeeded() {
                Some(
                    match self.result {
                        Some(result) => result,
                        None => OperationResult::Other,
                    },
                )
            } else {
                None
            }),
    {
        if self.finished && !self.failed {
            match self.result {
                Some(result) => Some(result),
                None => Some(OperationResult::Other),
            }
        } else {
            None
        }
    }

    /// The workspace that the command created, if it was carried out.
    pub fn created_workspace(&self) -> (created: Option<WorkspaceId>)
        ensures
            created == (match self.result {
                Some(OperationResult::WorkspaceCreated { workspace_id }) => if self.succeeded() {
                    Some(workspace_id)
                } else {
                    None
                },
                _ => None,
            }),
    {
        match self.result {
            Some(OperationResult::WorkspaceCreated { workspace_id }) => {
                if self.finished && !self.failed {
                    Some(workspace_id)
                } else {
                    None
                }
            },
            _ => None,
        }
    }
}

/// An effect stands for itself: what has to happen outside is what it names,
/// with the very values it holds.
pub proof fn law_effects_stand_for_themselves(effect: Effect)
    ensures
        effect matches Effect::ScrollBy { connection_id, terminal_id, delta } ==> effect@
            == (EffectModel::ScrollBy { connection_id, terminal_id, delta }),
        effect matches Effect::ScrollTo { connection_id, terminal_id, target } ==> effect@
            == (EffectModel::ScrollTo { connection_id, terminal_id, target }),
        effect matches Effect::PinViewport { connection_id, terminal_id, pinned } ==> effect@
            == (EffectModel::PinViewport { connection_id, terminal_id, pinned }),
        effect matches Effect::Dispatch { transport, connection_id, command } ==> effect@
            == (EffectModel::Dispatch { transport, connection_id, command: command@ }),
        effect matches Effect::Enqueue { transport, command } ==> effect@
            == (EffectModel::Enqueue { transport, command: command@ }),
        effect matches Effect::Run { transport, command } ==> effect@ == (EffectModel::Run {
            transport,
            command: command@,
        }),
        effect matches Effect::Paste { transport, terminal_id, bracketed } ==> effect@
            == (EffectModel::Paste { transport, terminal_id, bracketed }),
        effect matches Effect::ScrollToTab { index } ==> effect@ == (EffectModel::ScrollToTab {
            index,
        }),
        effect matches Effect::ConnectRemote { destination } ==> effect@
            == (EffectModel::ConnectRemote { destination: destination@ }),
        effect matches Effect::WriteClipboard { text } ==> effect@ == (EffectModel::WriteClipboard {
            text: text@,
        }),
        effect matches Effect::Disconnect { connection_id } ==> effect@ == (EffectModel::Disconnect {
            connection_id,
        }),
        effect matches Effect::KillServer { connection_id } ==> effect@ == (EffectModel::KillServer {
            connection_id,
        }),
        effect is Notify <==> effect@ is Notify,
        effect is StopPropagation <==> effect@ is StopPropagation,
        effect is FocusWindow <==> effect@ is FocusWindow,
        effect is ClearRenderCaches <==> effect@ is ClearRenderCaches,
        effect is StartWindowMove <==> effect@ is StartWindowMove,
        effect is ZoomWindow <==> effect@ is ZoomWindow,
{
}

/// A command stands for itself in the same way.
pub proof fn law_commands_stand_for_themselves(command: AppCommand)
    ensures
        command matches AppCommand::SplitPane { pane_id, direction } ==> command@
            == (CommandModel::SplitPane { pane_id, direction }),
        command matches AppCommand::FocusPane { pane_id, towards } ==> command@
            == (CommandModel::FocusPane { pane_id, towards }),
        command matches AppCommand::ResizeSplit { tab_id, path, ratio } ==> command@
            == (CommandModel::ResizeSplit { tab_id, path: path@, ratio }),
        command matches AppCommand::MovePane { pane_id, workspace_id } ==> command@
            == (CommandModel::MovePane { pane_id, workspace_id }),
        command matches AppCommand::ReorderWorkspace { workspace_id, index } ==> command@
            == (CommandModel::ReorderWorkspace { workspace_id, index }),
        command matches AppCommand::SendText { terminal_id, source, text } ==> command@
            == (CommandModel::SendText { terminal_id, source, text: text@ }),
        command matches AppCommand::SendBytes { terminal_id, source, bytes } ==> command@
            == (CommandModel::SendBytes { terminal_id, source, bytes: bytes@ }),
        command matches AppCommand::ResizeTerminal { pane_id, columns, lines } ==> command@
            == (CommandModel::ResizeTerminal { pane_id, columns, lines }),
        command matches AppCommand::RenameTab { tab_id, title } ==> command@
            == (CommandModel::RenameTab { tab_id, title: title@ }),
        command matches AppCommand::RenameAgent { pane_id, label } ==> command@
            == (CommandModel::RenameAgent { pane_id, label: label@ }),
        command matches AppCommand::RenameWorkspace { workspace_id, title } ==> command@
            == (CommandModel::RenameWorkspace { workspace_id, title: title@ }),
        command matches AppCommand::ActivateTab { tab_id } ==> command@
            == (CommandModel::ActivateTab { tab_id }),
        command matches AppCommand::CloseTab { tab_id } ==> command@ == (CommandModel::CloseTab {
            tab_id,
        }),
        command matches AppCommand::NewTab { workspace_id } ==> command@ == (CommandModel::NewTab {
            workspace_id,
        }),
        command matches AppCommand::ActivateWorkspace { workspace_id } ==> command@
            == (CommandModel::ActivateWorkspace { workspace_id }),
        command matches AppCommand::CloseWorkspace { workspace_id } ==> command@
            == (CommandModel::CloseWorkspace { workspace_id }),
        command matches AppCommand::ClosePane { pane_id } ==> command@ == (CommandModel::ClosePane {
            pane_id,
        }),
{
}

} // verus!
