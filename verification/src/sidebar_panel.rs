//! What the rows of the sidebar show.

use crate::color::channel_distance;
use crate::color::ThemeColors;
use crate::ids::ConnectionId;
use crate::ids::PaneId;
use crate::ids::WorkspaceId;
use crate::model::shown_workspace_count;
use crate::model::workspace_active_pane;
use crate::model::AgentDump;
use crate::model::TerminalStatus;
use crate::model::WorkspaceDump;
use crate::tables::has_pair;
use crate::text::chars_of;
use crate::text::copy_chars;
use crate::text::text_of;
use crate::view::RenameTarget;
use crate::view::WorkspaceConnection;
use crate::view::WorkspaceConnectionKind;
use crate::view::WorkspaceView;
use vstd::prelude::*;

verus! {

/// Colours nearer than this are not told apart.
pub const READABLE_DISTANCE: u32 = 0x30;

#[derive(Debug)]
pub struct WorkspaceRow {
    pub active: bool,
    pub collapsed: bool,
    /// Places of its agents among those of the server.
    pub agents: Vec<usize>,
    /// How many agents run, where that is shown.
    pub agent_count: Option<usize>,
    pub active_pane: Option<PaneId>,
    pub background: u32,
    pub hover: u32,
}

#[derive(Debug)]
pub struct ConnectionRow {
    pub selected: bool,
    pub collapsed: bool,
    pub kind_label: String,
    pub background: u32,
    /// There is nothing to list below it.
    pub is_empty: bool,
    /// It has a menu.
    pub has_menu: bool,
}

/// The colour of the dot in front of an agent.
#[derive(Clone, Copy, PartialEq, Eq, Structural, Debug)]
pub enum DotColor {
    Solid { color: u32 },
    /// A colour blended towards what lies behind it.
    Blended { color: u32, background: u32 },
}

#[derive(Debug)]
pub struct AgentRow {
    pub focused: bool,
    pub dot: DotColor,
    pub label: String,
    /// The last part of the directory that it works in.
    pub project: String,
    pub has_menu: bool,
    pub background: u32,
    pub hover: u32,
}

/// The places of the agents of a workspace.
pub open spec fn agent_places(agents: Seq<AgentDump>, workspace_id: WorkspaceId) -> Seq<int>
    decreases agents.len(),
{
    if agents.len() == 0 {
        Seq::empty()
    } else {
        let places = agent_places(agents.drop_last(), workspace_id);
        if agents.last().workspace_id == workspace_id {
            places.push(agents.len() - 1)
        } else {
            places
        }
    }
}

/// How many agents of a workspace run.
pub open spec fn running_agents(agents: Seq<AgentDump>, workspace_id: WorkspaceId) -> nat
    decreases agents.len(),
{
    if agents.len() == 0 {
        0
    } else {
        running_agents(agents.drop_last(), workspace_id) + (if agents.last().workspace_id
            == workspace_id && agents.last().runs() {
            1nat
        } else {
            0
        })
    }
}

/// A path without the slashes at its end.
pub open spec fn without_last_slashes(path: Seq<char>) -> Seq<char>
    decreases path.len(),
{
    if path.len() > 0 && path.last() == '/' {
        without_last_slashes(path.drop_last())
    } else {
        path
    }
}

/// The text behind the last slash.
pub open spec fn behind_last_slash(path: Seq<char>) -> Seq<char>
    decreases path.len(),
{
    if path.len() == 0 || path.last() == '/' {
        Seq::empty()
    } else {
        behind_last_slash(path.drop_last()).push(path.last())
    }
}

/// The last part of a path that is not empty.
pub open spec fn last_part(path: Seq<char>) -> Seq<char> {
    behind_last_slash(without_last_slashes(path))
}

/// A text that is being edited, with a caret behind it.
pub open spec fn with_caret(text: Seq<char>) -> Seq<char> {
    text + "▌"@
}

proof fn lemma_places_prefix(agents: Seq<AgentDump>, workspace_id: WorkspaceId, count: int)
    requires
        0 < count <= agents.len(),
    ensures
        agents.take(count).drop_last() == agents.take(count - 1),
        agents.take(count).last() == agents[count - 1],
{
    assert(agents.take(count).drop_last() =~= agents.take(count - 1));
}

/// The agents of a workspace and how many of them run.
fn list_agents(agents: &Vec<AgentDump>, workspace_id: WorkspaceId) -> (listed: (Vec<usize>, usize))
    ensures
        listed.0@.map_values(|place: usize| place as int) == agent_places(agents@, workspace_id),
        listed.1 == running_agents(agents@, workspace_id),
{
    let ghost as_int = |place: usize| place as int;
    let mut places: Vec<usize> = Vec::new();
    let mut running: usize = 0;
    let mut i: usize = 0;
    assert(places@.map_values(as_int) =~= agent_places(agents@.take(0), workspace_id));
    while i < agents.len()
        invariant
            i <= agents.len(),
            as_int == (|place: usize| place as int),
            places@.map_values(as_int) == agent_places(agents@.take(i as int), workspace_id),
            running == running_agents(agents@.take(i as int), workspace_id),
            running <= i,
        decreases agents.len() - i,
    {
        proof {
            lemma_places_prefix(agents@, workspace_id, i + 1);
        }
        if agents[i].workspace_id == workspace_id {
            let ghost known = places@;
            places.push(i);
            assert(places@.map_values(as_int) =~= known.map_values(as_int).push(i as int));
            if agents[i].status == TerminalStatus::Running {
                running += 1;
            }
        }
        i += 1;
    }
    assert(agents@.take(i as int) =~= agents@);
    (places, running)
}

proof fn lemma_last_slashes(path: Seq<char>, end: int)
    requires
        0 <= end <= path.len(),
        forall|i: int| end <= i < path.len() ==> #[trigger] path[i] == '/',
        end > 0 ==> path[end - 1] != '/',
    ensures
        without_last_slashes(path) == path.take(end),
    decreases path.len(),
{
    if end < path.len() {
        let shorter = path.drop_last();
        assert(path[path.len() - 1] == '/');
        lemma_last_slashes(shorter, end);
        assert(shorter.take(end) =~= path.take(end));
    } else {
        assert(path.take(end) =~= path);
    }
}

proof fn lemma_behind_slash(path: Seq<char>, start: int)
    requires
        0 <= start <= path.len(),
        forall|i: int| start <= i < path.len() ==> #[trigger] path[i] != '/',
        start > 0 ==> path[start - 1] == '/',
    ensures
        behind_last_slash(path) == path.skip(start),
    decreases path.len(),
{
    if start < path.len() {
        let shorter = path.drop_last();
        assert(path[path.len() - 1] != '/');
        lemma_behind_slash(shorter, start);
        assert(shorter.skip(start).push(path.last()) =~= path.skip(start));
    } else {
        assert(path.skip(start) =~= Seq::<char>::empty());
    }
}

/// The last part of a path that is not empty.
pub fn project_name(path: &str) -> (name: String)
    ensures
        name@ == last_part(path@),
{
    let chars = chars_of(path);
    let mut end: usize = chars.len();
    while end > 0 && chars[end - 1] == '/'
        invariant
            end <= chars.len(),
            forall|i: int| end <= i < chars.len() ==> #[trigger] chars@[i] == '/',
        decreases end,
    {
        end -= 1;
    }
    let mut start: usize = end;
    while start > 0 && chars[start - 1] != '/'
        invariant
            start <= end <= chars.len(),
            forall|i: int| start <= i < end ==> #[trigger] chars@[i] != '/',
        decreases start,
    {
        start -= 1;
    }
    let name = copy_chars(&chars, start, end);
    proof {
        let kept = chars@.take(end as int);
        lemma_last_slashes(chars@, end as int);
        assert forall|i: int| start <= i < kept.len() implies #[trigger] kept[i] != '/' by {
            assert(kept[i] == chars@[i]);
        }
        lemma_behind_slash(kept, start as int);
        assert(name@ =~= kept.skip(start as int));
    }
    text_of(name.as_slice())
}

impl crate::view::ViewModel {
    /// A workspace is the one that the window shows.
    pub open spec fn shows_workspace(self, connection_id: ConnectionId, workspace_id: WorkspaceId) -> bool {
        self.active_connection == connection_id && self.selected_workspace == Some(workspace_id)
    }

    /// An agent is in the pane that has the focus.
    pub open spec fn focuses_agent(self, connection_id: ConnectionId, agent: AgentDump) -> bool {
        self.shows_workspace(connection_id, agent.workspace_id) && self.focused_pane == Some(
            agent.pane_id,
        )
    }

    /// The label of an agent, or what is typed in its place.
    pub open spec fn agent_label(self, connection_id: ConnectionId, agent: AgentDump) -> Seq<char> {
        if self.overlay.rename_target == Some(
            RenameTarget::Agent { connection_id, pane_id: agent.pane_id },
        ) {
            with_caret(self.overlay.rename_value)
        } else {
            agent.display_label@
        }
    }
}

/// The colour of the dot of an agent: its own while it works, blended while it
/// is idle, neutral once it ended.
pub open spec fn dot_color(agent: AgentDump, focused: bool, kind_color: u32, theme: ThemeColors) -> DotColor {
    if !agent.runs() {
        DotColor::Solid { color: theme.inactive_pane_border }
    } else if agent.active {
        DotColor::Solid { color: kind_color }
    } else {
        DotColor::Blended {
            color: kind_color,
            background: if focused {
                theme.sidebar_agent_active_background
            } else {
                theme.sidebar_agent_background
            },
        }
    }
}

/// Whether the dot of an agent is too close in colour to its row to be seen.
pub fn dot_needs_contrast(running: bool, focused: bool, dot: u32, theme: &ThemeColors) -> (needs:
    bool)
    ensures
        needs == (running && focused && crate::color::largest_gap(
            dot,
            theme.sidebar_agent_active_background,
        ) < READABLE_DISTANCE),
{
    running && focused && channel_distance(dot, theme.sidebar_agent_active_background)
        < READABLE_DISTANCE
}

impl WorkspaceView {
    /// The row of a workspace of a connection.
    pub fn workspace_row(
        &self,
        connection: &WorkspaceConnection,
        workspace: &WorkspaceDump,
        theme: &ThemeColors,
    ) -> (row: WorkspaceRow)
        ensures
            ({
                let active = self@.shows_workspace(connection.id, workspace.id);
                let running = running_agents(connection.snapshot.agents@, workspace.id);
                &&& row.active == active
                &&& row.collapsed == self@.sidebar.collapsed_workspaces.contains(
                    (connection.id.raw, workspace.id.raw),
                )
                &&& row.agents@.map_values(|place: usize| place as int) == agent_places(
                    connection.snapshot.agents@,
                    workspace.id,
                )
                &&& match row.agent_count {
                    Some(count) => self@.config.sidebar_show_agent_count && running > 0 && count
                        == running,
                    None => !self@.config.sidebar_show_agent_count || running == 0,
                }
                &&& row.active_pane == workspace.active_pane()
                &&& row.background == (if active {
                    theme.sidebar_workspace_active_background
                } else {
                    theme.sidebar_workspace_background
                })
                &&& row.hover == (if active {
                    theme.sidebar_workspace_active_background
                } else {
                    theme.tab_add_background
                })
            }),
    {
        let active = self.active_connection == connection.id && self.selected_workspace == Some(
            workspace.id,
        );
        let (agents, running) = list_agents(&connection.snapshot.agents, workspace.id);
        WorkspaceRow {
            active,
            collapsed: has_pair(
                &self.sidebar.collapsed_workspaces,
                (connection.id.raw, workspace.id.raw),
            ),
            agents,
            agent_count: if self.config.sidebar_show_agent_count && running > 0 {
                Some(running)
            } else {
                None
            },
            active_pane: workspace_active_pane(workspace),
            background: if active {
                theme.sidebar_workspace_active_background
            } else {
                theme.sidebar_workspace_background
            },
            hover: if active {
                theme.sidebar_workspace_active_background
            } else {
                theme.tab_add_background
            },
        }
    }

    /// The header of a connection.
    pub fn connection_row(&self, connection: &WorkspaceConnection, theme: &ThemeColors) -> (row:
        ConnectionRow)
        ensures
            row.selected == (self@.active_connection == connection.id),
            row.collapsed == self@.sidebar.collapsed_connections.contains(connection.id.raw),
            row.kind_label@ == match connection.kind {
                WorkspaceConnectionKind::Local => "LOCAL"@,
                WorkspaceConnectionKind::Remote => "SSH"@,
            },
            row.background == (if row.selected {
                theme.sidebar_connection_active_background
            } else {
                theme.sidebar_connection_background
            }),
            row.is_empty == (connection.snapshot.shown().len() == 0),
            row.has_menu == (connection.kind == WorkspaceConnectionKind::Remote),
    {
        let selected = self.active_connection == connection.id;
        ConnectionRow {
            selected,
            collapsed: self.sidebar.collapsed_connections.contains(&connection.id.raw),
            kind_label: match connection.kind {
                WorkspaceConnectionKind::Local => "LOCAL".to_owned(),
                WorkspaceConnectionKind::Remote => "SSH".to_owned(),
            },
            background: if selected {
                theme.sidebar_connection_active_background
            } else {
                theme.sidebar_connection_background
            },
            is_empty: shown_workspace_count(&connection.snapshot) == 0,
            has_menu: connection.kind == WorkspaceConnectionKind::Remote,
        }
    }

    /// The text that is being edited in place, with its caret.
    pub fn rename_text(&self) -> (text: String)
        ensures
            text@ == with_caret(self@.overlay.rename_value),
    {
        let mut text = text_of(self.overlay.rename_value.as_slice());
        text.append("▌");
        text
    }

    /// The row of an agent of a connection; `kind_color` is the colour of its
    /// program.
    pub fn agent_row(
        &self,
        connection_id: ConnectionId,
        agent: &AgentDump,
        kind_color: u32,
        theme: &ThemeColors,
    ) -> (row: AgentRow)
        ensures
            ({
                let focused = self@.focuses_agent(connection_id, *agent);
                &&& row.focused == focused
                &&& row.dot == dot_color(*agent, focused, kind_color, *theme)
                &&& row.label@ == self@.agent_label(connection_id, *agent)
                &&& row.project@ == last_part(agent.cwd@)
                &&& row.has_menu == agent.runs()
                &&& row.background == (if focused {
                    theme.sidebar_agent_active_background
                } else {
                    theme.sidebar_agent_background
                })
                &&& row.hover == (if focused {
                    theme.sidebar_agent_active_background
                } else {
                    theme.tab_add_background
                })
            }),
    {
        let focused = self.active_connection == connection_id && self.selected_workspace == Some(
            agent.workspace_id,
        ) && self.focused_pane == Some(agent.pane_id);
        let running = agent.status == TerminalStatus::Running;
        let background: u32 = if focused {
            theme.sidebar_agent_active_background
        } else {
            theme.sidebar_agent_background
        };
        let renamed = RenameTarget::Agent { connection_id, pane_id: agent.pane_id };
        AgentRow {
            focused,
            dot: if !running {
                DotColor::Solid { color: theme.inactive_pane_border }
            } else if agent.active {
                DotColor::Solid { color: kind_color }
            } else {
                DotColor::Blended { color: kind_color, background }
            },
            label: if self.overlay.rename_target == Some(renamed) {
                self.rename_text()
            } else {
                agent.display_label.clone()
            },
            project: project_name(agent.cwd.as_str()),
            has_menu: running,
            background,
            hover: if focused {
                theme.sidebar_agent_active_background
            } else {
                theme.tab_add_background
            },
        }
    }
}

/// The places of the agents of a workspace name agents of that workspace, and
/// none of them twice.
pub proof fn law_agents_are_listed_once(agents: Seq<AgentDump>, workspace_id: WorkspaceId)
    ensures
        ({
            let places = agent_places(agents, workspace_id);
            &&& forall|i: int|
                0 <= i < places.len() ==> 0 <= #[trigger] places[i] < agents.len()
                    && agents[places[i]].workspace_id == workspace_id
            &&& forall|i: int, j: int|
                0 <= i < j < places.len() ==> #[trigger] places[i] < #[trigger] places[j]
            &&& running_agents(agents, workspace_id) <= places.len()
        }),
    decreases agents.len(),
{
    if agents.len() > 0 {
        let shorter = agents.drop_last();
        law_agents_are_listed_once(shorter, workspace_id);
        let known = agent_places(shorter, workspace_id);
        assert forall|i: int| 0 <= i < known.len() implies agents[#[trigger] known[i]].workspace_id
            == workspace_id by {
            assert(shorter[known[i]] == agents[known[i]]);
        }
    }
}

/// The last part of a path holds no slash.
pub proof fn law_parts_hold_no_slash(path: Seq<char>)
    ensures
        !behind_last_slash(path).contains('/'),
        !last_part(path).contains('/'),
{
    lemma_no_slash(path);
    lemma_no_slash(without_last_slashes(path));
}

proof fn lemma_no_slash(path: Seq<char>)
    ensures
        !behind_last_slash(path).contains('/'),
    decreases path.len(),
{
    if path.len() > 0 && path.last() != '/' {
        let part = behind_last_slash(path.drop_last());
        lemma_no_slash(path.drop_last());
        let longer = part.push(path.last());
        if longer.contains('/') {
            let place = choose|place: int| 0 <= place < longer.len() && longer[place] == '/';
            assert(part[place] == '/');
            assert(part.contains('/'));
        }
    }
}

/// Every agent of a workspace is listed under it, and counted while it runs.
pub proof fn law_every_agent_is_listed(
    agents: Seq<AgentDump>,
    agent: AgentDump,
    workspace_id: WorkspaceId,
    index: int,
)
    ensures
        0 <= index < agents.len() && agents[index].workspace_id == workspace_id ==> agent_places(
            agents,
            workspace_id,
        ).contains(index),
        running_agents(agents.push(agent), workspace_id) == running_agents(agents, workspace_id) + (
        if agent.workspace_id == workspace_id && agent.status == TerminalStatus::Running {
            1nat
        } else {
            0
        }),
        running_agents(Seq::empty(), workspace_id) == 0,
    decreases agents.len(),
{
    assert(agents.push(agent).drop_last() =~= agents);
    if 0 <= index < agents.len() && agents[index].workspace_id == workspace_id {
        let fewer = agents.drop_last();
        let places = agent_places(fewer, workspace_id);
        let all = agent_places(agents, workspace_id);
        if index < fewer.len() {
            assert(fewer[index] == agents[index]);
            law_every_agent_is_listed(fewer, agent, workspace_id, index);
            let i = choose|i: int| 0 <= i < places.len() && places[i] == index;
            assert(all[i] == index);
        } else {
            assert(all[places.len() as int] == index);
        }
    }
}

/// The last part of a path is what stands behind its last slash, slashes at its
/// end not counted.
pub proof fn law_last_parts_end_their_path(path: Seq<char>, part: Seq<char>, slashes: nat)
    requires
        part.len() > 0,
        !part.contains('/'),
    ensures
        last_part(path.push('/') + part + Seq::new(slashes, |i: int| '/')) == part,
        last_part(part + Seq::new(slashes, |i: int| '/')) == part,
{
    lemma_slashes_are_dropped(path.push('/') + part, slashes);
    lemma_slashes_are_dropped(part, slashes);
    assert(part.last() != '/') by {
        assert(part.contains(part.last()));
    }
    lemma_part_is_cut(path.push('/'), part);
    lemma_part_is_cut(Seq::empty(), part);
    assert(Seq::<char>::empty() + part =~= part);
}

proof fn lemma_slashes_are_dropped(path: Seq<char>, slashes: nat)
    requires
        path.len() > 0,
        path.last() != '/',
    ensures
        without_last_slashes(path + Seq::new(slashes, |i: int| '/')) == path,
    decreases slashes,
{
    let all = path + Seq::new(slashes, |i: int| '/');
    if slashes > 0 {
        let fewer = path + Seq::new((slashes - 1) as nat, |i: int| '/');
        assert(all.drop_last() =~= fewer);
        lemma_slashes_are_dropped(path, (slashes - 1) as nat);
    } else {
        assert(all =~= path);
    }
}

proof fn lemma_part_is_cut(before: Seq<char>, part: Seq<char>)
    requires
        !part.contains('/'),
        before.len() == 0 || before.last() == '/',
    ensures
        behind_last_slash(before + part) == part,
    decreases part.len(),
{
    let all = before + part;
    if part.len() == 0 {
        assert(all =~= before);
        assert(part =~= Seq::<char>::empty());
    } else {
        let fewer = part.drop_last();
        assert(part.contains(part.last()));
        assert(!fewer.contains('/')) by {
            if fewer.contains('/') {
                let i = choose|i: int| 0 <= i < fewer.len() && fewer[i] == '/';
                assert(part[i] == '/');
            }
        }
        lemma_part_is_cut(before, fewer);
        assert(all.drop_last() =~= before + fewer);
        assert(fewer.push(part.last()) =~= part);
    }
}

/// The dot of an agent tells how it is: grey where it has ended, in the colour
/// of its kind while it works, and blended into the row while it rests.
pub proof fn law_dots_tell_how_agents_are(
    agent: AgentDump,
    focused: bool,
    kind_color: u32,
    theme: ThemeColors,
)
    ensures
        ({
            let dot = dot_color(agent, focused, kind_color, theme);
            let runs = agent.status == TerminalStatus::Running;
            &&& !runs ==> dot == (DotColor::Solid { color: theme.inactive_pane_border })
            &&& runs && agent.active ==> dot == (DotColor::Solid { color: kind_color })
            &&& runs && !agent.active && focused ==> dot == (DotColor::Blended {
                color: kind_color,
                background: theme.sidebar_agent_active_background,
            })
            &&& runs && !agent.active && !focused ==> dot == (DotColor::Blended {
                color: kind_color,
                background: theme.sidebar_agent_background,
            })
        }),
{
}

/// A workspace or an agent stands out where it is what the window shows; an
/// agent that is being renamed shows what was typed.
pub proof fn law_rows_stand_out_where_they_are_shown(
    view: crate::view::ViewModel,
    connection_id: ConnectionId,
    agent: AgentDump,
)
    ensures
        view.shows_workspace(connection_id, agent.workspace_id) <==> view.active_connection
            == connection_id && view.selected_workspace == Some(agent.workspace_id),
        view.focuses_agent(connection_id, agent) <==> view.active_connection == connection_id
            && view.selected_workspace == Some(agent.workspace_id) && view.focused_pane == Some(
            agent.pane_id,
        ),
        view.overlay.rename_target is None ==> view.agent_label(connection_id, agent)
            == agent.display_label@,
        view.overlay.rename_target == Some(
            RenameTarget::Agent { connection_id, pane_id: agent.pane_id },
        ) ==> view.agent_label(connection_id, agent) == view.overlay.rename_value + "▌"@,
{
}

/// Colours are not told apart where no channel of them differs by as much as
/// 48.
pub proof fn law_near_colors_are_not_told_apart(a: u32, b: u32)
    ensures
        ({
            let red = (a as int / 0x10000) % 256 - (b as int / 0x10000) % 256;
            let green = (a as int / 0x100) % 256 - (b as int / 0x100) % 256;
            let blue = a as int % 256 - b as int % 256;
            crate::color::largest_gap(a, b) < READABLE_DISTANCE <==> -48 < red < 48 && -48 < green
                < 48 && -48 < blue < 48
        }),
{
    crate::color::law_distance_is_the_largest_channel(a, b);
}

} // verus!
