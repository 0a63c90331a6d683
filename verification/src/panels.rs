//! What the parts of a window beside the sidebar show.

use crate::color::ThemeColors;
use crate::ids::PaneId;
use crate::ids::TabId;
use crate::ids::TerminalId;
use crate::model::active_tab;
use crate::model::SplitAxis;
use crate::model::SurfaceKind;
use crate::offset::RowOffset;
use crate::terminal::share;
use crate::terminal::TerminalModes;
use crate::terminal::TerminalSnapshot;
use crate::text::decimal_text;
use crate::view::DialogState;
use crate::view::RenameTarget;
use crate::view::WorkspaceView;
use std::sync::Arc;
use vstd::prelude::*;

verus! {

/// A button of the tab strip.
#[derive(Debug)]
pub struct TabItem {
    pub tab_id: TabId,
    pub title: String,
    pub active: bool,
    pub active_pane: PaneId,
    pub background: u32,
}

pub struct TabItemModel {
    pub tab_id: TabId,
    pub title: Seq<char>,
    pub active: bool,
    pub active_pane: PaneId,
    pub background: u32,
}

impl View for TabItem {
    type V = TabItemModel;

    open spec fn view(&self) -> TabItemModel {
        TabItemModel {
            tab_id: self.tab_id,
            title: self.title@,
            active: self.active,
            active_pane: self.active_pane,
            background: self.background,
        }
    }
}

/// What lies on top of a window.
#[derive(Clone, Copy, PartialEq, Eq, Structural, Debug)]
pub enum Overlay {
    Nothing,
    Dialog,
    Menu,
}

/// What the main part of a window shows.
#[derive(Clone, Copy, PartialEq, Eq, Structural, Debug)]
pub enum MainContent {
    NoWorkspace,
    NoTab,
    Tab { tab_id: TabId },
}

/// What a pane shows.
#[derive(Clone, Copy, PartialEq, Eq, Structural, Debug)]
pub enum PaneContent {
    Grid,
    /// A terminal whose grid is not at hand yet.
    Starting,
    /// Something that is only named.
    Named,
}

/// How a pane is drawn.
#[derive(Clone, Copy, PartialEq, Eq, Structural, Debug)]
pub struct PanePlan {
    pub active: bool,
    pub border: u32,
    pub content: PaneContent,
    /// The cursor is drawn as the one that takes the input.
    pub cursor_focused: bool,
    /// How far the picture is moved.
    pub offset: RowOffset,
}

pub open spec fn surface_label_of(kind: SurfaceKind) -> Seq<char> {
    match kind {
        SurfaceKind::Empty => "EmptySurface"@,
        SurfaceKind::Terminal => "TerminalSurface"@,
        SurfaceKind::Agent => "AgentSurface"@,
        SurfaceKind::FileBrowser => "FileBrowserSurface"@,
        SurfaceKind::ImagePreview => "ImagePreviewSurface"@,
        SurfaceKind::MarkdownPreview => "MarkdownPreviewSurface"@,
        SurfaceKind::Diff => "DiffSurface"@,
    }
}

/// The name of what a pane is for.
pub fn surface_label(kind: SurfaceKind) -> (label: String)
    ensures
        label@ == surface_label_of(kind),
{
    match kind {
        SurfaceKind::Empty => "EmptySurface".to_owned(),
        SurfaceKind::Terminal => "TerminalSurface".to_owned(),
        SurfaceKind::Agent => "AgentSurface".to_owned(),
        SurfaceKind::FileBrowser => "FileBrowserSurface".to_owned(),
        SurfaceKind::ImagePreview => "ImagePreviewSurface".to_owned(),
        SurfaceKind::MarkdownPreview => "MarkdownPreviewSurface".to_owned(),
        SurfaceKind::Diff => "DiffSurface".to_owned(),
    }
}

/// A path through splits, as a digit for each turn.
pub open spec fn path_digits(path: Seq<bool>) -> Seq<char> {
    path.map_values(
        |second: bool|
            if second {
                '1'
            } else {
                '0'
            },
    )
}

/// A path through splits, as a digit for each turn.
pub fn path_code(path: &Vec<bool>) -> (code: String)
    ensures
        code@ == path_digits(path@),
{
    let mut code = String::new();
    let mut i: usize = 0;
    assert(code@ =~= path_digits(path@.take(0)));
    while i < path.len()
        invariant
            i <= path.len(),
            code@ == path_digits(path@.take(i as int)),
        decreases path.len() - i,
    {
        code.push(
            if path[i] {
                '1'
            } else {
                '0'
            },
        );
        i += 1;
        assert(code@ =~= path_digits(path@.take(i as int)));
    }
    assert(path@.take(i as int) =~= path@);
    code
}

fn same_path(a: &Vec<bool>, b: &Vec<bool>) -> (same: bool)
    ensures
        same == (a@ == b@),
{
    if a.len() != b.len() {
        return false;
    }
    let mut i: usize = 0;
    while i < a.len()
        invariant
            i <= a.len(),
            a.len() == b.len(),
            forall|j: int| 0 <= j < i ==> #[trigger] a@[j] == b@[j],
        decreases a.len() - i,
    {
        if a[i] != b[i] {
            assert(a@[i as int] != b@[i as int]);
            return false;
        }
        i += 1;
    }
    assert(a@ =~= b@);
    true
}

impl crate::view::ViewModel {
    /// The button of a tab.
    pub open spec fn tab_item(
        self,
        workspace: crate::model::WorkspaceDump,
        index: int,
        theme: ThemeColors,
    ) -> TabItemModel {
        let tab = workspace.tabs@[index];
        let active = workspace.active_tab == Some(tab.id);
        TabItemModel {
            tab_id: tab.id,
            title: if self.overlay.rename_target == Some(RenameTarget::Tab { tab_id: tab.id }) {
                crate::sidebar_panel::with_caret(self.overlay.rename_value)
            } else {
                tab.title@
            },
            active,
            active_pane: tab.active_pane,
            background: if active {
                theme.tab_active_background
            } else {
                theme.tab_inactive_background
            },
        }
    }

    /// The tabs of the workspace shown.
    pub open spec fn shown_tabs(self) -> nat {
        match self.selected() {
            Some(workspace) => workspace.tabs.len() as nat,
            None => 0,
        }
    }

    /// What lies on top: a dialog that has something to say, else a menu.
    pub open spec fn top(self) -> Overlay {
        let speaks = match self.overlay.dialog {
            Some(DialogState::ConfirmCloseWorkspace { workspace_id }) => self.workspace(
                workspace_id,
            ) is Some,
            Some(_) => true,
            None => false,
        };
        if speaks {
            Overlay::Dialog
        } else if self.overlay.context_menu is Some {
            Overlay::Menu
        } else {
            Overlay::Nothing
        }
    }

    pub open spec fn main_content(self) -> MainContent {
        match self.selected() {
            Some(workspace) => match workspace.active() {
                Some(tab) => MainContent::Tab { tab_id: tab.id },
                None => MainContent::NoTab,
            },
            None => MainContent::NoWorkspace,
        }
    }

    /// The picture of a pane moves with the wheel. It does not where the
    /// program in the pane takes the wheel or owns the screen.
    pub open spec fn scrolls_smoothly(self, pane_id: PaneId, modes: TerminalModes) -> bool {
        &&& !(modes.mouse_reporting && self.config.mouse_reporting)
        &&& !(modes.alternate_screen && modes.alternate_scroll)
        &&& !crate::model::pi_runs_in(self.snapshot, pane_id)
    }

    pub open spec fn pane_plan(
        self,
        pane_id: PaneId,
        kind: SurfaceKind,
        grid: Option<&TerminalSnapshot>,
        window_active: bool,
        theme: ThemeColors,
    ) -> PanePlan {
        let active = self.focused_pane == Some(pane_id);
        PanePlan {
            active,
            border: if active {
                theme.active_pane_border
            } else {
                theme.inactive_pane_border
            },
            content: if kind != SurfaceKind::Terminal {
                PaneContent::Named
            } else if grid is Some {
                PaneContent::Grid
            } else {
                PaneContent::Starting
            },
            cursor_focused: active && window_active,
            offset: match grid {
                Some(snapshot) => if self.scrolls_smoothly(pane_id, snapshot.modes) {
                    self.painted_offset(*snapshot)
                } else {
                    RowOffset::Rows(0)
                },
                None => RowOffset::Rows(0),
            },
        }
    }

    /// The share of the first part of a split: that of the divider under drag,
    /// else that of the server.
    pub open spec fn shown_ratio(self, tab_id: TabId, path: Seq<bool>, axis: SplitAxis, ratio: u32) -> u32 {
        match self.press.split_drag {
            Some(drag) => if drag.tab_id == tab_id && drag.path == path && drag.axis == axis
                && drag.preview_ratio is Some {
                drag.preview_ratio->0
            } else {
                ratio
            },
            None => ratio,
        }
    }

    /// The question before a workspace is closed.
    pub open spec fn close_question(self) -> Option<Seq<char>> {
        match self.overlay.dialog {
            Some(DialogState::ConfirmCloseWorkspace { workspace_id }) => match self.workspace(
                workspace_id,
            ) {
                Some(workspace) => Some(
                    "Close “"@ + workspace.title@ + "” and its "@ + crate::text::decimal_chars(
                        workspace.tabs.len() as nat,
                    ) + (if workspace.tabs.len() == 1 {
                        " tab?"@
                    } else {
                        " tabs?"@
                    }),
                ),
                None => None,
            },
            _ => None,
        }
    }

    /// What is missing in a dialog with a text.
    pub open spec fn dialog_hint(self) -> Seq<char> {
        match self.overlay.dialog {
            Some(DialogState::ConnectRemote) => if self.input_is_blank()
                && !self.overlay.remote_connection_pending {
                "Enter an SSH host or config alias to continue"@
            } else {
                ""@
            },
            Some(DialogState::RenameWorkspace { .. }) => if self.input_is_blank() {
                "Enter a name to rename this workspace"@
            } else {
                ""@
            },
            _ => ""@,
        }
    }

    /// The name of the button that confirms the dialog.
    pub open spec fn confirm_label(self) -> Seq<char> {
        match self.overlay.dialog {
            Some(DialogState::ConnectRemote) => if self.overlay.remote_connection_pending {
                "Connecting…"@
            } else {
                "Connect"@
            },
            Some(DialogState::RenameWorkspace { .. }) => "Rename"@,
            _ => "Close workspace"@,
        }
    }

    /// The name that a workspace has while it gets another.
    pub open spec fn current_name(self) -> Seq<char> {
        "Current name: "@ + match self.overlay.dialog {
            Some(DialogState::RenameWorkspace { connection_id, workspace_id }) => {
                match self.workspace_in(connection_id, workspace_id) {
                    Some(workspace) => workspace.title@,
                    None => Seq::empty(),
                }
            },
            _ => Seq::empty(),
        }
    }

    /// With the input method told which terminal it works on.
    pub open spec fn drawing(self) -> Self {
        crate::view::ViewModel {
            input_handler_terminal: match self.active_terminal() {
                Some(terminal_id) => match self.terminal_snapshot(terminal_id) {
                    Some(snapshot) => Some(snapshot.terminal_id),
                    None => None,
                },
                None => None,
            },
            ..self
        }
    }
}

impl WorkspaceView {
    /// The buttons of the tab strip.
    pub fn tab_items(&self, theme: &ThemeColors) -> (items: Vec<TabItem>)
        ensures
            items.len() == self@.shown_tabs(),
            forall|i: int|
                0 <= i < items.len() ==> (#[trigger] items@[i])@ == self@.tab_item(
                    self@.selected()->0,
                    i,
                    *theme,
                ),
    {
        let mut items: Vec<TabItem> = Vec::new();
        if let Some(workspace) = self.selected_workspace_dump() {
            let mut i: usize = 0;
            while i < workspace.tabs.len()
                invariant
                    i <= workspace.tabs.len(),
                    items.len() == i,
                    self@.selected() == Some(*workspace),
                    forall|j: int|
                        0 <= j < i ==> (#[trigger] items@[j])@ == self@.tab_item(
                            *workspace,
                            j,
                            *theme,
                        ),
                decreases workspace.tabs.len() - i,
            {
                let tab = &workspace.tabs[i];
                let active = workspace.active_tab == Some(tab.id);
                let renamed = RenameTarget::Tab { tab_id: tab.id };
                items.push(
                    TabItem {
                        tab_id: tab.id,
                        title: if self.overlay.rename_target == Some(renamed) {
                            self.rename_text()
                        } else {
                            tab.title.clone()
                        },
                        active,
                        active_pane: tab.active_pane,
                        background: if active {
                            theme.tab_active_background
                        } else {
                            theme.tab_inactive_background
                        },
                    },
                );
                i += 1;
            }
        }
        items
    }

    /// What lies on top of the window.
    pub fn top_overlay(&self) -> (top: Overlay)
        ensures
            top == self@.top(),
    {
        let speaks: bool = match self.overlay.dialog {
            Some(DialogState::ConfirmCloseWorkspace { workspace_id }) => self.workspace_exists(
                workspace_id,
            ),
            Some(_) => true,
            None => false,
        };
        if speaks {
            Overlay::Dialog
        } else if self.overlay.context_menu.is_some() {
            Overlay::Menu
        } else {
            Overlay::Nothing
        }
    }

    /// What the main part of the window shows.
    pub fn main_content(&self) -> (content: MainContent)
        ensures
            content == self@.main_content(),
    {
        match self.selected_workspace_dump() {
            Some(workspace) => match active_tab(workspace) {
                Some(tab) => MainContent::Tab { tab_id: tab.id },
                None => MainContent::NoTab,
            },
            None => MainContent::NoWorkspace,
        }
    }

    /// How a pane is drawn; `grid` is the grid of its terminal.
    pub fn pane_plan(
        &self,
        pane_id: PaneId,
        kind: SurfaceKind,
        grid: Option<&TerminalSnapshot>,
        window_active: bool,
        theme: &ThemeColors,
    ) -> (plan: PanePlan)
        requires
            grid is Some ==> crate::scroll::is_paintable(*grid->0),
        ensures
            plan == self@.pane_plan(pane_id, kind, grid, window_active, *theme),
            grid is Some ==> crate::scroll::rows_are_addressable(
                grid->0.size.lines as int,
                plan.offset,
            ),
    {
        let active = self.focused_pane == Some(pane_id);
        let offset: RowOffset = match grid {
            Some(snapshot) => {
                let modes = snapshot.modes;
                let smooth = !(modes.mouse_reporting && self.config.mouse_reporting) && !(
                modes.alternate_screen && modes.alternate_scroll)
                    && !self.pi_agent_running_for_pane(pane_id);
                if smooth {
                    self.terminal_scroll_offset(snapshot)
                } else {
                    RowOffset::zero()
                }
            },
            None => RowOffset::zero(),
        };
        PanePlan {
            active,
            border: if active {
                theme.active_pane_border
            } else {
                theme.inactive_pane_border
            },
            content: if kind != SurfaceKind::Terminal {
                PaneContent::Named
            } else if grid.is_some() {
                PaneContent::Grid
            } else {
                PaneContent::Starting
            },
            cursor_focused: active && window_active,
            offset,
        }
    }

    /// The share of the first part of a split.
    pub fn shown_split_ratio(&self, tab_id: TabId, path: &Vec<bool>, axis: SplitAxis, ratio: u32) -> (shown:
        u32)
        ensures
            shown == self@.shown_ratio(tab_id, path@, axis, ratio),
    {
        match &self.press.split_drag {
            Some(drag) => {
                if drag.tab_id == tab_id && same_path(&drag.path, path) && drag.axis == axis {
                    match drag.preview_ratio {
                        Some(preview) => preview,
                        None => ratio,
                    }
                } else {
                    ratio
                }
            },
            None => ratio,
        }
    }

    /// The question before a workspace is closed, where it is to be asked.
    pub fn close_workspace_question(&self) -> (question: Option<String>)
        ensures
            match question {
                Some(question) => self@.close_question() == Some(question@),
                None => self@.close_question() is None,
            },
    {
        match self.overlay.dialog {
            Some(DialogState::ConfirmCloseWorkspace { workspace_id }) => match self.workspace_by_id(
                workspace_id,
            ) {
                Some(workspace) => {
                    let mut question = "Close “".to_owned();
                    question.append(workspace.title.as_str());
                    question.append("” and its ");
                    question.append(decimal_text(workspace.tabs.len()).as_str());
                    if workspace.tabs.len() == 1 {
                        question.append(" tab?");
                    } else {
                        question.append(" tabs?");
                    }
                    Some(question)
                },
                None => None,
            },
            _ => None,
        }
    }

    /// What is missing in a dialog with a text.
    pub fn dialog_hint(&self) -> (hint: String)
        ensures
            hint@ == self@.dialog_hint(),
    {
        match self.overlay.dialog {
            Some(DialogState::ConnectRemote) => {
                if self.overlay.field.is_blank() && !self.overlay.remote_connection_pending {
                    "Enter an SSH host or config alias to continue".to_owned()
                } else {
                    "".to_owned()
                }
            },
            Some(DialogState::RenameWorkspace { .. }) => {
                if self.overlay.field.is_blank() {
                    "Enter a name to rename this workspace".to_owned()
                } else {
                    "".to_owned()
                }
            },
            _ => "".to_owned(),
        }
    }

    /// The name of the button that confirms the dialog.
    pub fn dialog_confirm_label(&self) -> (label: String)
        ensures
            label@ == self@.confirm_label(),
    {
        match self.overlay.dialog {
            Some(DialogState::ConnectRemote) => {
                if self.overlay.remote_connection_pending {
                    "Connecting…".to_owned()
                } else {
                    "Connect".to_owned()
                }
            },
            Some(DialogState::RenameWorkspace { .. }) => "Rename".to_owned(),
            _ => "Close workspace".to_owned(),
        }
    }

    /// The colours of the button that confirms a dialog with a text, behind
    /// and in front.
    pub fn dialog_confirm_colors(&self, theme: &ThemeColors) -> (colors: (u32, u32))
        ensures
            colors == (if self@.input_is_valid() {
                (theme.tab_add_background, theme.ui_foreground)
            } else {
                (theme.chrome_background, theme.inactive_pane_border)
            }),
    {
        if self.dialog_input_is_valid() {
            (theme.tab_add_background, theme.ui_foreground)
        } else {
            (theme.chrome_background, theme.inactive_pane_border)
        }
    }

    /// The name that a workspace has while it gets another.
    pub fn current_workspace_name(&self) -> (name: String)
        ensures
            name@ == self@.current_name(),
    {
        let mut name = "Current name: ".to_owned();
        if let Some(DialogState::RenameWorkspace { connection_id, workspace_id }) =
            self.overlay.dialog {
            if let Some(workspace) = self.workspace_by_id_in(connection_id, workspace_id) {
                name.append(workspace.title.as_str());
            }
        }
        assert(name@ =~= self@.current_name());
        name
    }

    /// Prepares a drawing: tells the input method which terminal it works on.
    pub fn begin_drawing(&mut self)
        ensures
            final(self)@ == old(self)@.drawing(),
            old(self)@.wf() ==> final(self)@.wf(),
    {
        let terminal: Option<TerminalId> = match self.active_terminal_id() {
            Some(terminal_id) => match self.terminal_snapshot_for(terminal_id) {
                Some(snapshot) => Some(snapshot.terminal_id),
                None => None,
            },
            None => None,
        };
        self.input_handler_terminal = terminal;
    }

    /// The grid of a terminal, if it is at hand.
    pub fn cached_terminal_snapshot(&self, terminal_id: TerminalId) -> (grid: Option<
        Arc<TerminalSnapshot>,
    >)
        ensures
            match grid {
                Some(grid) => self@.terminal_snapshot(terminal_id) == Some(*grid),
                None => self@.terminal_snapshot(terminal_id) is None,
            },
    {
        match self.terminal_snapshots.get(&terminal_id.raw) {
            Some(snapshot) => Some(share(snapshot)),
            None => None,
        }
    }

    /// Whether the grid of a terminal has to be fetched to draw it, and can
    /// be.
    pub fn needs_terminal_snapshot(&self, terminal_id: TerminalId) -> (needs: bool)
        ensures
            needs == (self@.has_application && self@.terminal_snapshot(terminal_id) is None),
    {
        self.has_application && self.terminal_snapshot_for(terminal_id).is_none()
    }

    /// Keeps a grid that was fetched.
    pub fn keep_terminal_snapshot(&mut self, terminal_id: TerminalId, grid: &Arc<TerminalSnapshot>)
        requires
            grid.wf(),
            crate::scroll::is_paintable(**grid),
        ensures
            final(self)@ == (crate::view::ViewModel {
                terminal_snapshots: old(self)@.terminal_snapshots.insert(terminal_id.raw, *grid),
                ..old(self)@
            }),
            old(self)@.wf() ==> final(self)@.wf(),
    {
        reveal(crate::view::grids_are_sound);
        self.terminal_snapshots.insert(terminal_id.raw, share(grid));
    }
}

/// A dialog with a text can be confirmed exactly while nothing is missing in
/// it, but for the connect dialog while it waits.
pub proof fn law_hints_tell_what_is_missing(view: crate::view::ViewModel)
    requires
        view.edits_text(),
        !view.overlay.remote_connection_pending,
    ensures
        view.input_is_valid() <==> view.dialog_hint() == ""@,
{
    reveal_strlit("");
    reveal_strlit("Enter an SSH host or config alias to continue");
    reveal_strlit("Enter a name to rename this workspace");
    assert("Enter an SSH host or config alias to continue"@.len() > 0);
    assert("Enter a name to rename this workspace"@.len() > 0);
}

/// The strip shows each tab under its title, the active one in the active
/// colour; a tab that is being renamed shows what was typed.
pub proof fn law_tabs_are_shown_under_their_title(
    view: crate::view::ViewModel,
    workspace: crate::model::WorkspaceDump,
    index: int,
    theme: ThemeColors,
)
    requires
        0 <= index < workspace.tabs.len(),
    ensures
        ({
            let tab = workspace.tabs@[index];
            let item = view.tab_item(workspace, index, theme);
            let renamed = view.overlay.rename_target == Some(RenameTarget::Tab { tab_id: tab.id });
            &&& item.tab_id == tab.id
            &&& item.active_pane == tab.active_pane
            &&& item.active <==> workspace.active_tab == Some(tab.id)
            &&& item.active ==> item.background == theme.tab_active_background
            &&& !item.active ==> item.background == theme.tab_inactive_background
            &&& !renamed ==> item.title == tab.title@
            &&& renamed ==> item.title.len() == view.overlay.rename_value.len() + 1
                && item.title.take(view.overlay.rename_value.len() as int)
                == view.overlay.rename_value
        }),
{
    reveal_strlit("▌");
    let value = view.overlay.rename_value;
    let shown = crate::sidebar_panel::with_caret(value);
    assert(shown.take(value.len() as int) =~= value);
}

/// The path of a split is written step by step: one for the second part, zero
/// for the first. Different paths are written differently.
pub proof fn law_paths_are_written_step_by_step(path: Seq<bool>, other: Seq<bool>, index: int)
    ensures
        path_digits(path).len() == path.len(),
        0 <= index < path.len() ==> path_digits(path)[index] == (if path[index] {
            '1'
        } else {
            '0'
        }),
        path_digits(path) == path_digits(other) ==> path == other,
{
    if path_digits(path) == path_digits(other) {
        assert(path_digits(path).len() == path.len());
        assert(path_digits(other).len() == other.len());
        assert forall|i: int| 0 <= i < path.len() implies path[i] == other[i] by {
            assert(path_digits(path)[i] == (if path[i] {
                '1'
            } else {
                '0'
            }));
            assert(path_digits(other)[i] == (if other[i] {
                '1'
            } else {
                '0'
            }));
        }
        assert(path =~= other);
    }
}

/// The focused pane has the active border, and its cursor takes the input while
/// the window is active.
pub proof fn law_the_focused_pane_stands_out(
    view: crate::view::ViewModel,
    pane_id: PaneId,
    kind: SurfaceKind,
    grid: Option<&TerminalSnapshot>,
    window_active: bool,
    theme: ThemeColors,
)
    ensures
        ({
            let plan = view.pane_plan(pane_id, kind, grid, window_active, theme);
            let focused = view.focused_pane == Some(pane_id);
            &&& plan.active == focused
            &&& focused ==> plan.border == theme.active_pane_border
            &&& !focused ==> plan.border == theme.inactive_pane_border
            &&& plan.cursor_focused <==> focused && window_active
            &&& kind != SurfaceKind::Terminal ==> plan.content == PaneContent::Named
            &&& kind == SurfaceKind::Terminal && grid is Some ==> plan.content == PaneContent::Grid
            &&& kind == SurfaceKind::Terminal && grid is None ==> plan.content
                == PaneContent::Starting
            &&& grid is None ==> plan.offset.units() == 0
        }),
{
    assert(0 * crate::offset::units_per_row() == 0) by (nonlinear_arith);
}

/// The picture of a terminal is moved smoothly unless its program gets the
/// wheel or keeps its own screen.
pub proof fn law_pictures_move_where_the_wheel_scrolls(
    view: crate::view::ViewModel,
    pane_id: PaneId,
    kind: SurfaceKind,
    grid: TerminalSnapshot,
    window_active: bool,
    theme: ThemeColors,
)
    ensures
        ({
            let plan = view.pane_plan(pane_id, kind, Some(&grid), window_active, theme);
            let listens = grid.modes.mouse_reporting && view.config.mouse_reporting;
            let fills = grid.modes.alternate_screen && grid.modes.alternate_scroll;
            let keeps = crate::model::pi_runs_in(view.snapshot, pane_id);
            &&& !listens && !fills && !keeps ==> plan.offset == view.painted_offset(grid)
            &&& listens || fills || keeps ==> plan.offset.units() == 0
        }),
{
    assert(0 * crate::offset::units_per_row() == 0) by (nonlinear_arith);
}

/// A split shows the share that its divider is dragged to, and else its own.
pub proof fn law_splits_show_their_share(
    view: crate::view::ViewModel,
    drag: crate::view::SplitDragModel,
    tab_id: TabId,
    path: Seq<bool>,
    axis: SplitAxis,
    ratio: u32,
)
    requires
        view.press.split_drag == Some(drag),
    ensures
        drag.tab_id == tab_id && drag.path == path && drag.axis == axis && drag.preview_ratio is Some
            ==> view.shown_ratio(tab_id, path, axis, ratio) == drag.preview_ratio->0,
        drag.tab_id != tab_id || drag.path != path || drag.axis != axis
            || drag.preview_ratio is None ==> view.shown_ratio(tab_id, path, axis, ratio) == ratio,
{
}

/// A dialog lies above a menu, and either above the window.
pub proof fn law_dialogs_lie_on_top(view: crate::view::ViewModel)
    ensures
        view.overlay.dialog is None && view.overlay.context_menu is None ==> view.top()
            == Overlay::Nothing,
        view.overlay.dialog is None && view.overlay.context_menu is Some ==> view.top()
            == Overlay::Menu,
        view.edits_text() ==> view.top() == Overlay::Dialog,
        view.overlay.dialog matches Some(DialogState::ConfirmCloseWorkspace { workspace_id }) ==> (
        view.workspace(workspace_id) is Some ==> view.top() == Overlay::Dialog),
{
}

/// The window shows the active tab of the selected workspace, where there are
/// both.
pub proof fn law_the_active_tab_is_shown(
    view: crate::view::ViewModel,
    workspace: crate::model::WorkspaceDump,
)
    ensures
        view.selected() is None ==> view.main_content() == MainContent::NoWorkspace,
        view.selected() == Some(workspace) && workspace.active() is None ==> view.main_content()
            == MainContent::NoTab,
        view.selected() == Some(workspace) && workspace.active() is Some ==> view.main_content()
            == (MainContent::Tab { tab_id: workspace.active()->0.id }),
{
}

/// The question before closing names the workspace and counts its tabs.
pub proof fn law_questions_name_the_workspace(
    view: crate::view::ViewModel,
    workspace: crate::model::WorkspaceDump,
)
    requires
        view.overlay.dialog == Some(
            DialogState::ConfirmCloseWorkspace { workspace_id: workspace.id },
        ),
        view.workspace(workspace.id) == Some(workspace),
    ensures
        workspace.tabs.len() == 1 ==> view.close_question() == Some(
            "Close “"@ + workspace.title@ + "” and its "@ + crate::text::decimal_chars(1)
                + " tab?"@,
        ),
        workspace.tabs.len() != 1 ==> view.close_question() == Some(
            "Close “"@ + workspace.title@ + "” and its "@ + crate::text::decimal_chars(
                workspace.tabs.len() as nat,
            ) + " tabs?"@,
        ),
{
}

/// The button of a dialog says what it does.
pub proof fn law_buttons_say_what_they_do(
    view: crate::view::ViewModel,
    connection_id: crate::ids::ConnectionId,
    workspace: crate::model::WorkspaceDump,
)
    ensures
        view.overlay.dialog == Some(
            DialogState::ConfirmCloseWorkspace { workspace_id: workspace.id },
        ) ==> view.confirm_label() == "Close workspace"@,
        view.overlay.dialog == Some(DialogState::ConnectRemote)
            && view.overlay.remote_connection_pending ==> view.confirm_label() == "Connecting…"@,
        view.overlay.dialog == Some(DialogState::ConnectRemote)
            && !view.overlay.remote_connection_pending ==> view.confirm_label() == "Connect"@,
        view.overlay.dialog == Some(
            DialogState::RenameWorkspace { connection_id, workspace_id: workspace.id },
        ) ==> view.confirm_label() == "Rename"@,
        view.overlay.dialog == Some(
            DialogState::RenameWorkspace { connection_id, workspace_id: workspace.id },
        ) && view.workspace_in(connection_id, workspace.id) == Some(workspace)
            ==> view.current_name() == "Current name: "@ + workspace.title@,
{
}

/// Input goes to the focused terminal as it was drawn.
pub proof fn law_drawn_terminals_take_the_input(
    view: crate::view::ViewModel,
    terminal_id: crate::ids::TerminalId,
    grid: TerminalSnapshot,
)
    ensures
        view.active_terminal() == Some(terminal_id) && view.terminal_snapshot(terminal_id) == Some(
            grid,
        ) ==> view.drawing().input_handler_terminal == Some(grid.terminal_id),
        view.active_terminal() is None ==> view.drawing().input_handler_terminal is None,
        view.active_terminal() == Some(terminal_id) && view.terminal_snapshot(terminal_id) is None
            ==> view.drawing().input_handler_terminal is None,
{
}

/// What a pane holds is named by its kind.
pub proof fn law_surfaces_are_named_by_their_kind()
    ensures
        surface_label_of(SurfaceKind::Empty) == "EmptySurface"@,
        surface_label_of(SurfaceKind::Terminal) == "TerminalSurface"@,
        surface_label_of(SurfaceKind::Agent) == "AgentSurface"@,
        surface_label_of(SurfaceKind::FileBrowser) == "FileBrowserSurface"@,
        surface_label_of(SurfaceKind::ImagePreview) == "ImagePreviewSurface"@,
        surface_label_of(SurfaceKind::MarkdownPreview) == "MarkdownPreviewSurface"@,
        surface_label_of(SurfaceKind::Diff) == "DiffSurface"@,
{
}

/// The hint under a line asks for what the dialog needs.
pub proof fn law_hints_ask_for_what_is_needed(
    view: crate::view::ViewModel,
    connection_id: crate::ids::ConnectionId,
    workspace_id: crate::ids::WorkspaceId,
)
    ensures
        ({
            let blank = crate::text::trimmed(view.overlay.field.text).len() == 0;
            &&& view.overlay.dialog == Some(DialogState::ConnectRemote) && blank
                && !view.overlay.remote_connection_pending ==> view.dialog_hint()
                == "Enter an SSH host or config alias to continue"@
            &&& view.overlay.dialog == Some(
                DialogState::RenameWorkspace { connection_id, workspace_id },
            ) && blank ==> view.dialog_hint() == "Enter a name to rename this workspace"@
            &&& !blank ==> view.dialog_hint() == ""@
        }),
{
}

} // verus!
