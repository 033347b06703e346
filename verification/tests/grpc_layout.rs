use muxr_core::grpc::layout::{
    layout_response, layout_to_proto, pane_is_client_visible, should_apply_view_state_override,
    RelayViewState, ViewStateEntry,
};
use muxr_core::multiplexer::types::{LayoutSnapshot, PaneRef, PaneSnapshot, TabSnapshot};

#[test]
fn terminal_pane_is_client_visible() {
    assert!(pane_is_client_visible(false), "terminal panes (is_plugin=false) must be visible to the client");
}

#[test]
fn plugin_pane_is_not_client_visible() {
    assert!(!pane_is_client_visible(true), "plugin panes (is_plugin=true) must be excluded from the client pane list");
}

#[test]
fn override_applied_on_exact_connection_id_match() {
    assert!(should_apply_view_state_override(true, "conn-1", "conn-1"), "override must be applied when relay_conn_id == request connection_id");
}

#[test]
fn override_suppressed_when_request_connection_id_is_empty() {
    assert!(!should_apply_view_state_override(true, "", "conn-2"), "override must be suppressed when request connection_id is empty");
}

#[test]
fn override_suppressed_when_relay_conn_id_differs() {
    assert!(!should_apply_view_state_override(true, "conn-A", "conn-B"), "override must be suppressed when relay_conn_id != request connection_id");
}

#[test]
fn override_suppressed_when_not_via_relay() {
    assert!(!should_apply_view_state_override(false, "conn-1", "conn-1"), "override must be suppressed when query was not served via relay");
}

#[test]
fn override_suppressed_when_all_empty() {
    assert!(!should_apply_view_state_override(false, "", ""), "override must be suppressed with no relay and no connection_id");
}

fn pane(id: u32, focused: bool, plugin: bool) -> PaneSnapshot {
    PaneSnapshot { id, title: format!("p{id}"), is_focused: focused, is_plugin: plugin, ..PaneSnapshot::default() }
}

fn snapshot() -> LayoutSnapshot {
    LayoutSnapshot {
        tabs: vec![
            TabSnapshot { tab_id: 1, name: "one".into(), active: true, panes: vec![pane(1, true, false), pane(2, false, true), pane(3, false, false)], ..TabSnapshot::default() },
            TabSnapshot { tab_id: 2, name: "two".into(), active: false, panes: vec![pane(4, true, false)], ..TabSnapshot::default() },
        ],
    }
}

#[test]
fn plugin_panes_are_dropped_and_raw_flags_kept_without_view() {
    let l = layout_to_proto(&snapshot(), &None);
    assert_eq!(l.tabs.len(), 2);
    assert_eq!(l.tabs[0].panes.iter().map(|p| p.id).collect::<Vec<_>>(), vec![1, 3]);
    assert!(l.tabs[0].active && !l.tabs[1].active);
    assert!(l.tabs[0].panes[0].is_focused && l.tabs[1].panes[0].is_focused);
}

#[test]
fn view_overrides_active_tab_and_focus_only_in_that_tab() {
    let view = Some(RelayViewState { active_tab: Some(2), focused_pane: Some(PaneRef::terminal(9)), current_space: None });
    let l = layout_to_proto(&snapshot(), &view);
    assert!(!l.tabs[0].active && l.tabs[1].active);
    assert!(l.tabs[0].panes[0].is_focused, "non-active tab keeps its own focus");
    assert!(!l.tabs[1].panes[0].is_focused, "active tab follows the view's focused pane");
}

#[test]
fn override_comes_from_the_callers_own_relay_only() {
    let states = vec![ViewStateEntry {
        connection_id: "c1".into(),
        session: "s".into(),
        state: RelayViewState { active_tab: Some(2), focused_pane: None, current_space: None },
    }];
    let own = layout_response(&snapshot(), true, "c1", "c1", &states);
    assert!(own.tabs[1].active);
    let sibling = layout_response(&snapshot(), true, "c2", "c1", &states);
    assert!(sibling.tabs[0].active && !sibling.tabs[1].active);
}
