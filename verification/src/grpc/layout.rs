//! The GetLayout view: which relay's view state may override the queried
//! layout (B-FOCUS), and the proto layout built from a neutral snapshot with
//! plugin panes filtered out.

use vstd::prelude::*;
use vstd::string::StrSliceExecFns;

use crate::multiplexer::types::{LayoutSnapshot, PaneRef, PaneSnapshot, TabSnapshot};
use crate::text::str_eq;

verus! {

/// What a relay knows of its own client's view: the tab it switched to, the
/// pane it focused and the space it views (each unknown until observed).
#[derive(Debug, Clone, PartialEq, Eq)]
pub struct RelayViewState {
    pub active_tab: Option<u64>,
    pub focused_pane: Option<PaneRef>,
    pub current_space: Option<String>,
}

impl Default for RelayViewState {
    fn default() -> (r: Self)
        ensures
            r.active_tab is None,
            r.focused_pane is None,
            r.current_space is None,
    {
        RelayViewState { active_tab: None, focused_pane: None, current_space: None }
    }
}

/// One entry of the per-connection view-state registry: its connection id
/// (the registry key), the session its relay renders, and the view state.
#[derive(Debug, Clone, PartialEq, Eq)]
pub struct ViewStateEntry {
    pub connection_id: String,
    pub session: String,
    pub state: RelayViewState,
}

/// A copy of a view state.
pub fn copy_view_state(vs: &RelayViewState) -> (r: RelayViewState)
    ensures
        r == *vs,
{
    RelayViewState {
        active_tab: vs.active_tab,
        focused_pane: vs.focused_pane,
        current_space: match &vs.current_space {
            Some(s) => Some(s.clone()),
            None => None,
        },
    }
}

/// The proto `PaneMsg`.
#[derive(Debug, Clone, PartialEq, Eq)]
pub struct PaneMsg {
    pub id: u32,
    pub title: String,
    pub is_focused: bool,
    pub is_floating: bool,
    pub exited: bool,
    pub command: String,
    pub cwd: String,
    pub x: u32,
    pub y: u32,
    pub rows: u32,
    pub cols: u32,
    pub is_plugin: bool,
    pub is_fullscreen: bool,
}

/// The proto `TabMsg`.
#[derive(Debug, Clone, PartialEq, Eq)]
pub struct TabMsg {
    pub position: u32,
    pub name: String,
    pub active: bool,
    pub has_bell: bool,
    pub panes_to_hide: u32,
    pub tab_id: u32,
    pub panes: Vec<PaneMsg>,
    pub fullscreen_active: bool,
    pub floating_panes_visible: bool,
}

/// The proto `Layout`.
#[derive(Debug, Clone, PartialEq, Eq)]
pub struct Layout {
    pub tabs: Vec<TabMsg>,
}

/// A pane is client-visible iff it is a real terminal pane.
pub fn pane_is_client_visible(is_plugin: bool) -> (r: bool)
    ensures
        r == !is_plugin,
{
    !is_plugin
}

/// The view-state override is applied only when the query was served by the
/// caller's own relay: via a relay, with a non-empty request connection id
/// equal to the id of the relay that served it.
pub open spec fn override_applies(
    via_relay: bool,
    request_connection_id: Seq<char>,
    relay_conn_id: Seq<char>,
) -> bool {
    via_relay && request_connection_id.len() > 0 && relay_conn_id == request_connection_id
}

/// Decide whether the B-FOCUS view-state override is applied.
pub fn should_apply_view_state_override(
    via_relay: bool,
    request_connection_id: &str,
    relay_conn_id: &str,
) -> (r: bool)
    ensures
        r == override_applies(via_relay, request_connection_id@, relay_conn_id@),
{
    via_relay && request_connection_id.unicode_len() != 0 && str_eq(
        relay_conn_id,
        request_connection_id,
    )
}

/// `i` is the first view-state entry keyed by `key`.
pub open spec fn is_state_at(states: Seq<ViewStateEntry>, key: Seq<char>, i: int) -> bool {
    &&& 0 <= i < states.len()
    &&& states[i].connection_id@ == key
    &&& forall|j: int| 0 <= j < i ==> states[j].connection_id@ != key
}

/// The view state recorded for connection `key`, if any.
pub open spec fn state_index(states: Seq<ViewStateEntry>, key: Seq<char>) -> Option<int> {
    if exists|i: int| is_state_at(states, key, i) {
        Some(choose|i: int| is_state_at(states, key, i))
    } else {
        None
    }
}

/// The view state recorded for connection `key`, if any.
pub open spec fn state_for(states: Seq<ViewStateEntry>, key: Seq<char>) -> Option<RelayViewState> {
    match state_index(states, key) {
        Some(i) => Some(states[i].state),
        None => None,
    }
}

/// Find the view-state entry keyed by `key`.
pub fn find_view_state(states: &Vec<ViewStateEntry>, key: &str) -> (r: Option<usize>)
    ensures
        match r {
            Some(i) => state_index(states@, key@) == Some(i as int),
            None => state_index(states@, key@) is None,
        },
{
    let mut i: usize = 0;
    while i < states.len()
        invariant
            0 <= i <= states.len(),
            forall|j: int| 0 <= j < i ==> states@[j].connection_id@ != key@,
        decreases states.len() - i,
    {
        if str_eq(states[i].connection_id.as_str(), key) {
            proof {
                assert(is_state_at(states@, key@, i as int));
                let k = choose|k: int| is_state_at(states@, key@, k);
                if k < i {
                } else if k > i {
                    assert(states@[i as int].connection_id@ != key@);
                }
            }
            return Some(i);
        }
        i = i + 1;
    }
    None
}

/// Look up the view state recorded for connection `key`.
pub fn lookup_view_state(states: &Vec<ViewStateEntry>, key: &str) -> (r: Option<RelayViewState>)
    ensures
        r == state_for(states@, key@),
{
    match find_view_state(states, key) {
        Some(i) => Some(copy_view_state(&states[i].state)),
        None => None,
    }
}

/// The view state that overrides the queried layout, if the override applies.
pub open spec fn view_for(
    states: Seq<ViewStateEntry>,
    via_relay: bool,
    request_connection_id: Seq<char>,
    relay_conn_id: Seq<char>,
) -> Option<RelayViewState> {
    if override_applies(via_relay, request_connection_id, relay_conn_id) {
        state_for(states, relay_conn_id)
    } else {
        None
    }
}

/// The tab the view says is active, if the view knows one.
pub open spec fn view_active_tab(view: Option<RelayViewState>) -> Option<u64> {
    match view {
        Some(vs) => vs.active_tab,
        None => None,
    }
}

/// A tab's reported active flag: the view's active tab when known, else the
/// queried value.
pub open spec fn tab_active(tab: TabSnapshot, view: Option<RelayViewState>) -> bool {
    match view_active_tab(view) {
        Some(at) => tab.tab_id == at,
        None => tab.active,
    }
}

/// The tab is the view's known active tab.
pub open spec fn in_active_tab(tab: TabSnapshot, view: Option<RelayViewState>) -> bool {
    match view_active_tab(view) {
        Some(at) => tab.tab_id == at,
        None => false,
    }
}

/// A pane's reported focus: within the view's active tab, the view's focused
/// pane when known; everywhere else the queried value.
pub open spec fn pane_focused(p: PaneSnapshot, in_active: bool, view: Option<RelayViewState>) -> bool {
    if in_active {
        match view {
            Some(vs) => match vs.focused_pane {
                Some(fp) => fp.is_plugin == p.is_plugin && fp.id == p.id,
                None => p.is_focused,
            },
            None => p.is_focused,
        }
    } else {
        p.is_focused
    }
}

/// The proto pane for a snapshot pane with the given focus flag.
pub open spec fn pane_msg(p: PaneSnapshot, is_focused: bool) -> PaneMsg {
    PaneMsg {
        id: p.id,
        title: p.title,
        is_focused,
        is_floating: p.is_floating,
        exited: p.exited,
        command: p.command,
        cwd: p.cwd,
        x: p.x,
        y: p.y,
        rows: p.rows,
        cols: p.cols,
        is_plugin: p.is_plugin,
        is_fullscreen: p.is_fullscreen,
    }
}

/// The client-visible panes of a tab, in order, with their reported focus.
pub open spec fn visible_panes(
    panes: Seq<PaneSnapshot>,
    in_active: bool,
    view: Option<RelayViewState>,
) -> Seq<PaneMsg>
    decreases panes.len(),
{
    if panes.len() == 0 {
        Seq::empty()
    } else {
        let rest = visible_panes(panes.drop_last(), in_active, view);
        let p = panes.last();
        if p.is_plugin {
            rest
        } else {
            rest.push(pane_msg(p, pane_focused(p, in_active, view)))
        }
    }
}

proof fn lemma_visible_panes_are_terminals(
    panes: Seq<PaneSnapshot>,
    in_active: bool,
    view: Option<RelayViewState>,
)
    ensures
        forall|j: int|
            0 <= j < visible_panes(panes, in_active, view).len() ==> !(#[trigger] visible_panes(
                panes,
                in_active,
                view,
            )[j]).is_plugin,
    decreases panes.len(),
{
    if panes.len() > 0 {
        let rest = visible_panes(panes.drop_last(), in_active, view);
        lemma_visible_panes_are_terminals(panes.drop_last(), in_active, view);
        let p = panes.last();
        if !p.is_plugin {
            let all = rest.push(pane_msg(p, pane_focused(p, in_active, view)));
            assert forall|j: int| 0 <= j < all.len() implies !(#[trigger] all[j]).is_plugin by {
                if j < rest.len() {
                    assert(all[j] == rest[j]);
                }
            }
        }
    }
}

/// `m` is the proto tab for snapshot tab `tab` under `view`.
pub open spec fn tab_msg_of(m: TabMsg, tab: TabSnapshot, view: Option<RelayViewState>) -> bool {
    &&& m.position == tab.position
    &&& m.name == tab.name
    &&& m.active == tab_active(tab, view)
    &&& m.has_bell == tab.has_bell
    &&& m.panes_to_hide == tab.panes_to_hide
    &&& m.tab_id == tab.tab_id as u32
    &&& m.panes@ == visible_panes(tab.panes@, in_active_tab(tab, view), view)
    &&& m.fullscreen_active == tab.fullscreen_active
    &&& m.floating_panes_visible == tab.floating_panes_visible
}

/// `l` is the proto layout for `snapshot` under `view`.
pub open spec fn layout_of(l: Layout, snapshot: LayoutSnapshot, view: Option<RelayViewState>) -> bool {
    &&& l.tabs.len() == snapshot.tabs.len()
    &&& forall|i: int|
        0 <= i < l.tabs.len() ==> tab_msg_of(#[trigger] l.tabs@[i], snapshot.tabs@[i], view)
}

/// The view a GetLayout reply is shaped by: none unless the query was served
/// via a relay whose connection id is the caller's own, non-empty id; then
/// the view state recorded first under that id, or none when none is.
pub proof fn law_layout_view_is_callers_own(
    states: Seq<ViewStateEntry>,
    via_relay: bool,
    request_connection_id: Seq<char>,
    relay_conn_id: Seq<char>,
    i: int,
)
    ensures
        view_for(states, via_relay, request_connection_id, relay_conn_id) is Some ==> via_relay
            && request_connection_id.len() > 0 && relay_conn_id == request_connection_id,
        via_relay && request_connection_id.len() > 0 && relay_conn_id == request_connection_id && 0
            <= i < states.len() && states[i].connection_id@ == relay_conn_id && (forall|j: int|
            0 <= j < i ==> (#[trigger] states[j]).connection_id@ != relay_conn_id) ==> view_for(
            states,
            via_relay,
            request_connection_id,
            relay_conn_id,
        ) == Some(states[i].state),
        (forall|j: int| 0 <= j < states.len() ==> (#[trigger] states[j]).connection_id@ != relay_conn_id)
            ==> view_for(states, via_relay, request_connection_id, relay_conn_id) is None,
{
    if 0 <= i < states.len() && states[i].connection_id@ == relay_conn_id && (forall|j: int|
        0 <= j < i ==> (#[trigger] states[j]).connection_id@ != relay_conn_id) {
        assert(is_state_at(states, relay_conn_id, i));
        let c = choose|c: int| is_state_at(states, relay_conn_id, c);
        if c < i {
            assert(states[c].connection_id@ != relay_conn_id);
        } else if c > i {
            assert(states[i].connection_id@ != relay_conn_id);
        }
    }
}

/// The panes of a tab that a client sees: the terminal panes, in order.
pub open spec fn terminal_panes(panes: Seq<PaneSnapshot>) -> Seq<PaneSnapshot> {
    panes.filter(|p: PaneSnapshot| !p.is_plugin)
}

proof fn lemma_visible_are_terminal_panes(
    panes: Seq<PaneSnapshot>,
    in_active: bool,
    view: Option<RelayViewState>,
)
    ensures
        visible_panes(panes, in_active, view).len() == terminal_panes(panes).len(),
        forall|k: int|
            0 <= k < terminal_panes(panes).len() ==> #[trigger] visible_panes(panes, in_active, view)[k]
                == pane_msg(terminal_panes(panes)[k], pane_focused(terminal_panes(panes)[k], in_active, view)),
    decreases panes.len(),
{
    if panes.len() > 0 {
        lemma_visible_are_terminal_panes(panes.drop_last(), in_active, view);
        reveal_with_fuel(Seq::<PaneSnapshot>::filter, 1);
        assert(terminal_panes(panes) == (if !panes.last().is_plugin {
            terminal_panes(panes.drop_last()).push(panes.last())
        } else {
            terminal_panes(panes.drop_last())
        }));
    }
}

/// What a client sees of tab `i` of the layout reply `l` for `snapshot`
/// under `view`: the tab is active when it is the view's known active tab
/// (else as queried); its panes are the tab's terminal panes in order, each
/// with its own id and geometry; a pane is reported focused when the view
/// knows this tab as active and knows a focused pane (then exactly that
/// terminal pane is focused), and otherwise exactly as queried, in the
/// active tab as in every other.
pub proof fn law_layout_focus(l: Layout, snapshot: LayoutSnapshot, view: Option<RelayViewState>, i: int, k: int)
    requires
        layout_of(l, snapshot, view),
        0 <= i < snapshot.tabs.len(),
        0 <= k < terminal_panes(snapshot.tabs@[i].panes@).len(),
    ensures
        l.tabs@[i].active == (if view is Some && view->0.active_tab is Some {
            snapshot.tabs@[i].tab_id == view->0.active_tab->0
        } else {
            snapshot.tabs@[i].active
        }),
        l.tabs@[i].panes.len() == terminal_panes(snapshot.tabs@[i].panes@).len(),
        ({
            let p = terminal_panes(snapshot.tabs@[i].panes@)[k];
            let m = l.tabs@[i].panes@[k];
            &&& m.id == p.id
            &&& !m.is_plugin
            &&& m.x == p.x && m.y == p.y && m.rows == p.rows && m.cols == p.cols
            &&& m.is_focused == (if view is Some && view->0.active_tab == Some(snapshot.tabs@[i].tab_id)
                && view->0.focused_pane is Some {
                view->0.focused_pane->0.id == p.id && !view->0.focused_pane->0.is_plugin
            } else {
                p.is_focused
            })
        }),
{
    let tab = snapshot.tabs@[i];
    assert(tab_msg_of(l.tabs@[i], tab, view));
    lemma_visible_are_terminal_panes(tab.panes@, in_active_tab(tab, view), view);
    let p = terminal_panes(tab.panes@)[k];
    assert(!p.is_plugin) by {
        tab.panes@.lemma_filter_pred(|q: PaneSnapshot| !q.is_plugin, k);
    }
}

fn focused_flag(p: &PaneSnapshot, in_active: bool, view: &Option<RelayViewState>) -> (r: bool)
    requires
        in_active ==> view is Some,
    ensures
        r == pane_focused(*p, in_active, *view),
{
    if in_active {
        match view {
            Some(vs) => match vs.focused_pane {
                Some(fp) => fp.is_plugin == p.is_plugin && fp.id == p.id,
                None => p.is_focused,
            },
            None => p.is_focused,
        }
    } else {
        p.is_focused
    }
}

fn tab_to_proto(tab: &TabSnapshot, view: &Option<RelayViewState>) -> (r: TabMsg)
    ensures
        tab_msg_of(r, *tab, *view),
{
    let (active, in_active) = match view {
        Some(vs) => match vs.active_tab {
            Some(at) => (tab.tab_id == at, tab.tab_id == at),
            None => (tab.active, false),
        },
        None => (tab.active, false),
    };
    let mut panes: Vec<PaneMsg> = Vec::new();
    let mut i: usize = 0;
    while i < tab.panes.len()
        invariant
            0 <= i <= tab.panes.len(),
            in_active == in_active_tab(*tab, *view),
            in_active ==> view is Some,
            panes@ == visible_panes(tab.panes@.take(i as int), in_active, *view),
        decreases tab.panes.len() - i,
    {
        let p = &tab.panes[i];
        proof {
            assert(tab.panes@.take(i + 1).drop_last() =~= tab.panes@.take(i as int));
            assert(tab.panes@.take(i + 1).last() == tab.panes@[i as int]);
        }
        if pane_is_client_visible(p.is_plugin) {
            let is_focused = focused_flag(p, in_active, view);
            panes.push(
                PaneMsg {
                    id: p.id,
                    title: p.title.clone(),
                    is_focused,
                    is_floating: p.is_floating,
                    exited: p.exited,
                    command: p.command.clone(),
                    cwd: p.cwd.clone(),
                    x: p.x,
                    y: p.y,
                    rows: p.rows,
                    cols: p.cols,
                    is_plugin: p.is_plugin,
                    is_fullscreen: p.is_fullscreen,
                },
            );
        }
        i = i + 1;
    }
    proof {
        assert(tab.panes@.take(tab.panes@.len() as int) =~= tab.panes@);
    }
    TabMsg {
        position: tab.position,
        name: tab.name.clone(),
        active,
        has_bell: tab.has_bell,
        panes_to_hide: tab.panes_to_hide,
        tab_id: tab.tab_id as u32,
        panes,
        fullscreen_active: tab.fullscreen_active,
        floating_panes_visible: tab.floating_panes_visible,
    }
}

/// GetLayout never shows a plugin pane (background plugins, tab and status
/// bars): every pane of every tab of the reply is a terminal pane.
pub proof fn law_layout_hides_plugin_panes(l: Layout, snapshot: LayoutSnapshot, view: Option<RelayViewState>)
    requires
        layout_of(l, snapshot, view),
    ensures
        forall|i: int, j: int|
            0 <= i < l.tabs.len() && 0 <= j < l.tabs@[i].panes.len() ==> !(
            #[trigger] l.tabs@[i].panes@[j]).is_plugin,
{
    assert forall|i: int, j: int|
        0 <= i < l.tabs.len() && 0 <= j < l.tabs@[i].panes.len() implies !(
        #[trigger] l.tabs@[i].panes@[j]).is_plugin by {
        assert(tab_msg_of(l.tabs@[i], snapshot.tabs@[i], view));
        let t = snapshot.tabs@[i];
        lemma_visible_panes_are_terminals(t.panes@, in_active_tab(t, view), view);
    }
}

/// Build the proto layout from a neutral snapshot: plugin panes are dropped,
/// and where `view` is given its active tab and (within that tab only) its
/// focused pane override the queried flags.
pub fn layout_to_proto(snapshot: &LayoutSnapshot, view: &Option<RelayViewState>) -> (r: Layout)
    ensures
        layout_of(r, *snapshot, *view),
{
    let mut tabs: Vec<TabMsg> = Vec::new();
    let mut i: usize = 0;
    while i < snapshot.tabs.len()
        invariant
            0 <= i <= snapshot.tabs.len(),
            tabs.len() == i,
            forall|k: int| 0 <= k < i ==> tab_msg_of(#[trigger] tabs@[k], snapshot.tabs@[k], *view),
        decreases snapshot.tabs.len() - i,
    {
        let t = tab_to_proto(&snapshot.tabs[i], view);
        tabs.push(t);
        i = i + 1;
    }
    Layout { tabs }
}

/// The GetLayout reply: the snapshot as served (by a relay or ephemerally),
/// with the B-FOCUS override of the serving relay's view state applied only
/// when that relay is the caller's own.
pub fn layout_response(
    snapshot: &LayoutSnapshot,
    via_relay: bool,
    request_connection_id: &str,
    relay_conn_id: &str,
    states: &Vec<ViewStateEntry>,
) -> (r: Layout)
    ensures
        layout_of(
            r,
            *snapshot,
            view_for(states@, via_relay, request_connection_id@, relay_conn_id@),
        ),
{
    let view = if should_apply_view_state_override(via_relay, request_connection_id, relay_conn_id) {
        lookup_view_state(states, relay_conn_id)
    } else {
        None
    };
    layout_to_proto(snapshot, &view)
}

} // verus!
