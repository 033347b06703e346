//! The zellij backend's translations: neutral pane / resize ids to zellij's,
//! the neutral layout snapshot built from zellij's `ListTabs` / `ListPanes`
//! replies, the action sequence of a fullscreen toggle, and the mapping of
//! zellij server messages onto the neutral stream.
//!
//! zellij's own types are mirrored here by the fields this logic reads; the
//! IPC itself happens at the edge.

use vstd::prelude::*;

use crate::multiplexer::routing::{valid_session_name, validate_session_name};
use crate::multiplexer::types::{
    FullscreenHint, LayoutSnapshot, MuxEvent, MuxServerMsg, PaneRef, PaneSnapshot, ResizeDir,
    ResizeKind, TabSnapshot,
};
use crate::text::push_str;

verus! {

/// zellij's pane id.
#[derive(Debug, Clone, Copy, PartialEq, Eq, Structural)]
pub enum ZellijPaneId {
    Terminal(u32),
    Plugin(u32),
}

/// zellij's resize kind.
#[derive(Debug, Clone, Copy, PartialEq, Eq, Structural)]
pub enum ZellijResize {
    Increase,
    Decrease,
}

/// zellij's direction.
#[derive(Debug, Clone, Copy, PartialEq, Eq, Structural)]
pub enum ZellijDirection {
    Left,
    Right,
    Up,
    Down,
}

/// The zellij pane id of a neutral pane.
pub fn to_pane_id(pane: PaneRef) -> (r: ZellijPaneId)
    ensures
        r == (if pane.is_plugin {
            ZellijPaneId::Plugin(pane.id)
        } else {
            ZellijPaneId::Terminal(pane.id)
        }),
{
    if pane.is_plugin {
        ZellijPaneId::Plugin(pane.id)
    } else {
        ZellijPaneId::Terminal(pane.id)
    }
}

/// The neutral pane of a zellij pane id.
pub fn from_pane_id(id: ZellijPaneId) -> (r: PaneRef)
    ensures
        r == (match id {
            ZellijPaneId::Terminal(n) => PaneRef { id: n, is_plugin: false },
            ZellijPaneId::Plugin(n) => PaneRef { id: n, is_plugin: true },
        }),
{
    match id {
        ZellijPaneId::Terminal(n) => PaneRef::terminal(n),
        ZellijPaneId::Plugin(n) => PaneRef::plugin(n),
    }
}

/// Converting a neutral pane to zellij's id and back gives the pane.
pub proof fn law_pane_id_round_trip(pane: PaneRef)
    ensures
        (match (if pane.is_plugin {
            ZellijPaneId::Plugin(pane.id)
        } else {
            ZellijPaneId::Terminal(pane.id)
        }) {
            ZellijPaneId::Terminal(n) => PaneRef { id: n, is_plugin: false },
            ZellijPaneId::Plugin(n) => PaneRef { id: n, is_plugin: true },
        }) == pane,
{
}

/// zellij's resize kind for a neutral one.
pub fn to_resize(kind: ResizeKind) -> (r: ZellijResize)
    ensures
        r == (match kind {
            ResizeKind::Increase => ZellijResize::Increase,
            ResizeKind::Decrease => ZellijResize::Decrease,
        }),
{
    match kind {
        ResizeKind::Increase => ZellijResize::Increase,
        ResizeKind::Decrease => ZellijResize::Decrease,
    }
}

/// zellij's direction for a neutral one.
pub fn to_direction(dir: ResizeDir) -> (r: ZellijDirection)
    ensures
        r == (match dir {
            ResizeDir::Left => ZellijDirection::Left,
            ResizeDir::Right => ZellijDirection::Right,
            ResizeDir::Up => ZellijDirection::Up,
            ResizeDir::Down => ZellijDirection::Down,
        }),
{
    match dir {
        ResizeDir::Left => ZellijDirection::Left,
        ResizeDir::Right => ZellijDirection::Right,
        ResizeDir::Up => ZellijDirection::Up,
        ResizeDir::Down => ZellijDirection::Down,
    }
}

/// One tab of zellij's `ListTabs` reply (the fields the layout reads).
#[derive(Debug, Clone, PartialEq, Eq)]
pub struct ZellijTabInfo {
    pub tab_id: usize,
    pub position: usize,
    pub name: String,
    pub active: bool,
    pub has_bell_notification: bool,
    pub panes_to_hide: usize,
    pub is_fullscreen_active: bool,
    pub are_floating_panes_visible: bool,
}

/// One pane of zellij's `ListPanes` reply (the fields the layout reads).
#[derive(Debug, Clone, PartialEq, Eq)]
pub struct ZellijPaneEntry {
    pub tab_id: usize,
    pub id: u32,
    pub title: String,
    pub is_focused: bool,
    pub is_floating: bool,
    pub exited: bool,
    pub pane_x: usize,
    pub pane_y: usize,
    pub pane_rows: usize,
    pub pane_columns: usize,
    pub is_plugin: bool,
    pub is_fullscreen: bool,
    pub pane_command: Option<String>,
    pub pane_cwd: Option<String>,
}

/// The neutral snapshot of one listed pane (missing command / cwd empty).
pub open spec fn pane_of(e: ZellijPaneEntry, p: PaneSnapshot) -> bool {
    &&& p.id == e.id
    &&& p.title == e.title
    &&& p.is_focused == e.is_focused
    &&& p.is_floating == e.is_floating
    &&& p.exited == e.exited
    &&& p.command@ == (match e.pane_command {
        Some(c) => c@,
        None => Seq::<char>::empty(),
    })
    &&& p.cwd@ == (match e.pane_cwd {
        Some(c) => c@,
        None => Seq::<char>::empty(),
    })
    &&& p.x == e.pane_x as u32
    &&& p.y == e.pane_y as u32
    &&& p.rows == e.pane_rows as u32
    &&& p.cols == e.pane_columns as u32
    &&& p.is_plugin == e.is_plugin
    &&& p.is_fullscreen == e.is_fullscreen
}

/// The listed panes of tab `tab_id`, in listing order.
pub open spec fn panes_of_tab(panes: Seq<ZellijPaneEntry>, tab_id: usize) -> Seq<ZellijPaneEntry> {
    panes.filter(|e: ZellijPaneEntry| e.tab_id == tab_id)
}

/// Tab `i` is the first listed with its id (a repeated id gets no panes).
pub open spec fn first_with_id(tabs: Seq<ZellijTabInfo>, i: int) -> bool {
    forall|j: int| 0 <= j < i ==> tabs[j].tab_id != tabs[i].tab_id
}

/// `t` is the neutral tab for listed tab `i`.
pub open spec fn tab_of(tabs: Seq<ZellijTabInfo>, panes: Seq<ZellijPaneEntry>, i: int, t: TabSnapshot) -> bool {
    let z = tabs[i];
    let own = if first_with_id(tabs, i) {
        panes_of_tab(panes, z.tab_id)
    } else {
        Seq::empty()
    };
    &&& t.tab_id == z.tab_id as u64
    &&& t.position == z.position as u32
    &&& t.name == z.name
    &&& t.active == z.active
    &&& t.has_bell == z.has_bell_notification
    &&& t.panes_to_hide == z.panes_to_hide as u32
    &&& t.fullscreen_active == z.is_fullscreen_active
    &&& t.floating_panes_visible == z.are_floating_panes_visible
    &&& t.panes.len() == own.len()
    &&& forall|k: int| 0 <= k < own.len() ==> pane_of(own[k], #[trigger] t.panes@[k])
}

/// In zellij's neutral layout, the `k`-th pane of the first tab listed with
/// a given id is the `k`-th listed pane of that tab: it belongs to the tab
/// and keeps its id, title, flags and command / cwd (empty when missing),
/// with its position from `pane_x` / `pane_y`, its row count from
/// `pane_rows` and its column count from `pane_columns`. The tab keeps its
/// listed id, position, name and flags.
pub proof fn law_zellij_pane_geometry(
    tabs: Seq<ZellijTabInfo>,
    panes: Seq<ZellijPaneEntry>,
    r: LayoutSnapshot,
    i: int,
    k: int,
)
    requires
        r.tabs.len() == tabs.len(),
        forall|q: int| 0 <= q < tabs.len() ==> tab_of(tabs, panes, q, #[trigger] r.tabs@[q]),
        0 <= i < tabs.len(),
        first_with_id(tabs, i),
        0 <= k < panes_of_tab(panes, tabs[i].tab_id).len(),
    ensures
        r.tabs@[i].tab_id == tabs[i].tab_id as u64,
        r.tabs@[i].position == tabs[i].position as u32,
        r.tabs@[i].name == tabs[i].name,
        r.tabs@[i].active == tabs[i].active,
        r.tabs@[i].panes.len() == panes_of_tab(panes, tabs[i].tab_id).len(),
        ({
            let e = panes_of_tab(panes, tabs[i].tab_id)[k];
            let p = r.tabs@[i].panes@[k];
            &&& e.tab_id == tabs[i].tab_id
            &&& p.id == e.id
            &&& p.title == e.title
            &&& p.rows == e.pane_rows as u32
            &&& p.cols == e.pane_columns as u32
            &&& p.x == e.pane_x as u32
            &&& p.y == e.pane_y as u32
            &&& p.is_focused == e.is_focused
            &&& p.is_floating == e.is_floating
            &&& p.exited == e.exited
            &&& p.is_plugin == e.is_plugin
            &&& p.is_fullscreen == e.is_fullscreen
            &&& (e.pane_command matches Some(c) ==> p.command@ == c@)
            &&& (e.pane_command is None ==> p.command@ == Seq::<char>::empty())
            &&& (e.pane_cwd matches Some(c) ==> p.cwd@ == c@)
            &&& (e.pane_cwd is None ==> p.cwd@ == Seq::<char>::empty())
        }),
{
    assert(tab_of(tabs, panes, i, r.tabs@[i]));
    let own = panes_of_tab(panes, tabs[i].tab_id);
    assert(pane_of(own[k], r.tabs@[i].panes@[k]));
    panes.lemma_filter_pred(|e: ZellijPaneEntry| e.tab_id == tabs[i].tab_id, k);
}

/// A tab id listed again gets no panes (they went to its first listing).
pub proof fn law_zellij_repeated_tab_has_no_panes(
    tabs: Seq<ZellijTabInfo>,
    panes: Seq<ZellijPaneEntry>,
    r: LayoutSnapshot,
    i: int,
    j: int,
)
    requires
        r.tabs.len() == tabs.len(),
        forall|q: int| 0 <= q < tabs.len() ==> tab_of(tabs, panes, q, #[trigger] r.tabs@[q]),
        0 <= j < i < tabs.len(),
        tabs[j].tab_id == tabs[i].tab_id,
    ensures
        r.tabs@[i].panes.len() == 0,
{
    assert(tab_of(tabs, panes, i, r.tabs@[i]));
    assert(!first_with_id(tabs, i));
}

fn pane_snapshot(e: &ZellijPaneEntry) -> (r: PaneSnapshot)
    ensures
        pane_of(*e, r),
{
    PaneSnapshot {
        id: e.id,
        title: e.title.clone(),
        is_focused: e.is_focused,
        is_floating: e.is_floating,
        exited: e.exited,
        command: match &e.pane_command {
            Some(c) => c.clone(),
            None => String::new(),
        },
        cwd: match &e.pane_cwd {
            Some(c) => c.clone(),
            None => String::new(),
        },
        x: e.pane_x as u32,
        y: e.pane_y as u32,
        rows: e.pane_rows as u32,
        cols: e.pane_columns as u32,
        is_plugin: e.is_plugin,
        is_fullscreen: e.is_fullscreen,
    }
}

fn seen_before(tabs: &Vec<ZellijTabInfo>, i: usize) -> (r: bool)
    requires
        i < tabs.len(),
    ensures
        r == !first_with_id(tabs@, i as int),
{
    let mut j: usize = 0;
    while j < i
        invariant
            j <= i < tabs.len(),
            forall|k: int| 0 <= k < j ==> tabs@[k].tab_id != tabs@[i as int].tab_id,
        decreases i - j,
    {
        if tabs[j].tab_id == tabs[i].tab_id {
            return true;
        }
        j = j + 1;
    }
    false
}

fn tab_panes(panes: &Vec<ZellijPaneEntry>, tab_id: usize) -> (r: Vec<PaneSnapshot>)
    ensures
        r.len() == panes_of_tab(panes@, tab_id).len(),
        forall|k: int|
            0 <= k < r.len() ==> pane_of(panes_of_tab(panes@, tab_id)[k], #[trigger] r@[k]),
{
    let mut out: Vec<PaneSnapshot> = Vec::new();
    let mut i: usize = 0;
    while i < panes.len()
        invariant
            0 <= i <= panes.len(),
            out.len() == panes_of_tab(panes@.take(i as int), tab_id).len(),
            forall|k: int|
                0 <= k < out.len() ==> pane_of(
                    panes_of_tab(panes@.take(i as int), tab_id)[k],
                    #[trigger] out@[k],
                ),
        decreases panes.len() - i,
    {
        proof {
            reveal(Seq::filter);
            assert(panes@.take(i + 1).drop_last() =~= panes@.take(i as int));
            assert(panes@.take(i + 1).last() == panes@[i as int]);
        }
        if panes[i].tab_id == tab_id {
            out.push(pane_snapshot(&panes[i]));
        }
        i = i + 1;
    }
    assert(panes@.take(panes@.len() as int) =~= panes@);
    out
}

/// The neutral layout of zellij's `ListTabs` and `ListPanes` replies: each
/// tab in order with its panes in listing order (plugin panes included); a
/// tab id listed twice gets its panes only the first time.
pub fn zellij_layout_snapshot(tabs: &Vec<ZellijTabInfo>, panes: &Vec<ZellijPaneEntry>) -> (r:
    LayoutSnapshot)
    ensures
        r.tabs.len() == tabs.len(),
        forall|i: int| 0 <= i < tabs.len() ==> tab_of(tabs@, panes@, i, #[trigger] r.tabs@[i]),
{
    let mut out: Vec<TabSnapshot> = Vec::new();
    let mut i: usize = 0;
    while i < tabs.len()
        invariant
            0 <= i <= tabs.len(),
            out.len() == i,
            forall|k: int| 0 <= k < i ==> tab_of(tabs@, panes@, k, #[trigger] out@[k]),
        decreases tabs.len() - i,
    {
        let z = &tabs[i];
        let own = if seen_before(tabs, i) {
            Vec::new()
        } else {
            tab_panes(panes, z.tab_id)
        };
        let t = TabSnapshot {
            tab_id: z.tab_id as u64,
            position: z.position as u32,
            name: z.name.clone(),
            active: z.active,
            has_bell: z.has_bell_notification,
            panes_to_hide: z.panes_to_hide as u32,
            fullscreen_active: z.is_fullscreen_active,
            floating_panes_visible: z.are_floating_panes_visible,
            panes: own,
        };
        out.push(t);
        i = i + 1;
    }
    LayoutSnapshot { tabs: out }
}

/// One zellij action of a fullscreen toggle.
#[derive(Debug, Clone, Copy, PartialEq, Eq, Structural)]
pub enum FullscreenStep {
    HideFloatingPanes,
    ShowFloatingPanes,
    Focus(ZellijPaneId),
    /// Make the floating pane fill the display (0,0 at 100% x 100%,
    /// borderless).
    FillFloating(ZellijPaneId),
    ToggleFocusFullscreen,
}

/// The actions of a fullscreen toggle: a focused, visible floating pane
/// hides the floating layer; another floating pane is shown, focused and
/// made to fill the display; a tiled pane is focused and toggled.
pub fn fullscreen_steps(pane: PaneRef, hint: FullscreenHint) -> (r: Vec<FullscreenStep>)
    ensures
        ({
            let id = if pane.is_plugin {
                ZellijPaneId::Plugin(pane.id)
            } else {
                ZellijPaneId::Terminal(pane.id)
            };
            r@ == (if hint.is_floating {
                if hint.floating_visible && hint.is_focused_floating {
                    seq![FullscreenStep::HideFloatingPanes]
                } else {
                    seq![
                        FullscreenStep::ShowFloatingPanes,
                        FullscreenStep::Focus(id),
                        FullscreenStep::FillFloating(id),
                    ]
                }
            } else {
                seq![FullscreenStep::Focus(id), FullscreenStep::ToggleFocusFullscreen]
            })
        }),
{
    let id = to_pane_id(pane);
    let mut v: Vec<FullscreenStep> = Vec::new();
    if hint.is_floating {
        if hint.floating_visible && hint.is_focused_floating {
            v.push(FullscreenStep::HideFloatingPanes);
        } else {
            v.push(FullscreenStep::ShowFloatingPanes);
            v.push(FullscreenStep::Focus(id));
            v.push(FullscreenStep::FillFloating(id));
        }
    } else {
        v.push(FullscreenStep::Focus(id));
        v.push(FullscreenStep::ToggleFocusFullscreen);
    }
    v
}

/// A zellij server message (the variants with remote-client meaning; the
/// rest are `Other`).
#[derive(Debug, Clone, PartialEq, Eq)]
pub enum ZellijServerMsg {
    Render { content: String },
    Log { lines: Vec<String> },
    Exit { reason: String },
    RenamedSession { name: String },
    ConfigFileUpdated,
    SwitchSession { name: Option<String> },
    Other,
}

/// Lines joined with `'\n'`.
pub open spec fn joined(lines: Seq<String>) -> Seq<char>
    decreases lines.len(),
{
    if lines.len() == 0 {
        Seq::empty()
    } else if lines.len() == 1 {
        lines[0]@
    } else {
        joined(lines.drop_last()) + seq!['\n'] + lines.last()@
    }
}

fn join_lines(lines: &Vec<String>) -> (r: String)
    ensures
        r@ == joined(lines@),
{
    let mut s = String::new();
    let mut i: usize = 0;
    while i < lines.len()
        invariant
            0 <= i <= lines.len(),
            s@ == joined(lines@.take(i as int)),
        decreases lines.len() - i,
    {
        proof {
            assert(lines@.take(i + 1).drop_last() =~= lines@.take(i as int));
            assert(lines@.take(i + 1).last() == lines@[i as int]);
        }
        if i > 0 {
            crate::text::push_char(&mut s, '\n');
        }
        push_str(&mut s, lines[i].as_str());
        proof {
            if i == 0 {
                assert(lines@.take(1)[0] == lines@[0]);
                assert(s@ =~= joined(lines@.take(1)));
            } else {
                assert(s@ =~= joined(lines@.take(i + 1)));
            }
        }
        i = i + 1;
    }
    assert(lines@.take(lines@.len() as int) =~= lines@);
    s
}

/// Map a zellij server message onto the neutral stream: render content as
/// bytes, log lines joined by newlines, lifecycle events as events.
pub fn map_zellij_message(msg: ZellijServerMsg) -> (r: MuxServerMsg)
    ensures
        match msg {
            ZellijServerMsg::Render { content } => r matches MuxServerMsg::Render(b) && b@
                == vstd::utf8::encode_utf8(content@),
            ZellijServerMsg::Log { lines } => r matches MuxServerMsg::Log(s) && s@ == joined(lines@),
            ZellijServerMsg::Exit { reason } => r == MuxServerMsg::Event(MuxEvent::Exit { reason }),
            ZellijServerMsg::RenamedSession { name } => r == MuxServerMsg::Event(
                MuxEvent::RenamedSession { name },
            ),
            ZellijServerMsg::ConfigFileUpdated => r == MuxServerMsg::Event(MuxEvent::ConfigUpdated),
            ZellijServerMsg::SwitchSession { name } => r matches MuxServerMsg::Event(
                MuxEvent::SwitchSession { name: n },
            ) && n@ == (match name {
                Some(s) => s@,
                None => Seq::<char>::empty(),
            }),
            ZellijServerMsg::Other => r == MuxServerMsg::Other,
        },
{
    match msg {
        ZellijServerMsg::Render { content } => {
            let bytes = content.as_str().as_bytes();
            let mut v: Vec<u8> = Vec::new();
            let mut i: usize = 0;
            while i < bytes.len()
                invariant
                    0 <= i <= bytes@.len(),
                    v@ == bytes@.take(i as int),
                decreases bytes@.len() - i,
            {
                v.push(bytes[i]);
                proof {
                    assert(bytes@.take(i + 1) =~= bytes@.take(i as int).push(bytes@[i as int]));
                }
                i = i + 1;
            }
            assert(bytes@.take(bytes@.len() as int) =~= bytes@);
            MuxServerMsg::Render(v)
        },
        ZellijServerMsg::Log { lines } => MuxServerMsg::Log(join_lines(&lines)),
        ZellijServerMsg::Exit { reason } => MuxServerMsg::Event(MuxEvent::Exit { reason }),
        ZellijServerMsg::RenamedSession { name } => MuxServerMsg::Event(
            MuxEvent::RenamedSession { name },
        ),
        ZellijServerMsg::ConfigFileUpdated => MuxServerMsg::Event(MuxEvent::ConfigUpdated),
        ZellijServerMsg::SwitchSession { name } => MuxServerMsg::Event(
            MuxEvent::SwitchSession {
                name: match name {
                    Some(s) => s,
                    None => String::new(),
                },
            },
        ),
        ZellijServerMsg::Other => MuxServerMsg::Other,
    }
}

/// The zellij backend (stateless: every call opens its own IPC
/// connection at the edge).
#[derive(Debug, Clone, Copy, Default, PartialEq, Eq, Structural)]
pub struct ZellijBackend;

impl ZellijBackend {
    /// The strict `[A-Za-z0-9_-]` session-name guard.
    pub fn validate_session_name(&self, name: &str) -> (r: Result<(), String>)
        ensures
            r is Ok <==> valid_session_name(name@),
    {
        validate_session_name(name)
    }

    /// The zellij version this backend speaks.
    pub fn backend_version(&self) -> (r: String)
        ensures
            r@ == "0.44.3"@,
    {
        crate::multiplexer::detect::LINKED_ZELLIJ_VERSION.to_owned()
    }
}

} // verus!
