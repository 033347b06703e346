use muxr_core::herdr::api::{
    AgentStatus, PaneInfo, PaneLayoutPane, PaneLayoutRect, PaneLayoutSnapshot, TabInfo,
};
use muxr_core::herdr::control::{ack_err, ack_ok, unknown_pane, unknown_tab, HerdrControl};
use muxr_core::herdr::registry::{HerdrPaneRegistry, HerdrTabRegistry};
use muxr_core::herdr::transcode::transcode_layout;

fn tab(tab_id: &str, number: usize, label: &str, focused: bool) -> TabInfo {
    TabInfo {
        tab_id: tab_id.to_string(),
        workspace_id: "ws-1".to_string(),
        number,
        label: label.to_string(),
        focused,
        pane_count: 1,
        agent_status: AgentStatus::Idle,
    }
}

fn pane(pane_id: &str, terminal_id: &str, tab_id: &str, title: Option<&str>) -> PaneInfo {
    PaneInfo {
        pane_id: pane_id.to_string(),
        terminal_id: terminal_id.to_string(),
        workspace_id: "ws-1".to_string(),
        tab_id: tab_id.to_string(),
        focused: false,
        cwd: Some("/home/u".to_string()),
        foreground_cwd: None,
        label: None,
        agent: None,
        title: title.map(|t| t.to_string()),
        display_agent: None,
        agent_status: AgentStatus::Idle,
        custom_status: None,
        state_labels: vec![],
        agent_session: None,
        revision: 1,
    }
}

fn layout(tab_id: &str, zoomed: bool, panes: Vec<PaneLayoutPane>) -> PaneLayoutSnapshot {
    let focused_pane_id = panes
        .iter()
        .find(|p| p.focused)
        .map(|p| p.pane_id.clone())
        .unwrap_or_default();
    PaneLayoutSnapshot {
        workspace_id: "ws-1".into(),
        tab_id: tab_id.into(),
        zoomed,
        area: PaneLayoutRect { x: 0, y: 0, width: 220, height: 50 },
        focused_pane_id,
        panes,
        splits: vec![],
    }
}

fn lp(pane_id: &str, focused: bool, rect: PaneLayoutRect) -> PaneLayoutPane {
    PaneLayoutPane { pane_id: pane_id.into(), focused, rect }
}

#[test]
fn transcode_maps_two_pane_tab_to_neutral_snapshot() {
    let mut pane_reg = HerdrPaneRegistry::new();
    let mut tab_reg = HerdrTabRegistry::new();

    let tabs = vec![tab("tab-1", 0, "main", true)];
    let panes = vec![
        pane("pane-left", "term-l", "tab-1", Some("editor")),
        pane("pane-right", "term-r", "tab-1", None),
    ];
    let tab_layouts = vec![layout(
        "tab-1",
        false,
        vec![
            lp("pane-left", true, PaneLayoutRect { x: 0, y: 0, width: 110, height: 50 }),
            lp("pane-right", false, PaneLayoutRect { x: 110, y: 0, width: 110, height: 50 }),
        ],
    )];

    let snap = transcode_layout(&tabs, &panes, &tab_layouts, "tab-1", &mut pane_reg, &mut tab_reg);

    assert_eq!(snap.tabs.len(), 1);
    let t = &snap.tabs[0];
    assert_eq!(t.name, "main");
    assert_eq!(t.position, 0);
    assert!(t.active);
    assert!(!t.fullscreen_active);
    assert_eq!(t.panes.len(), 2);

    let left = &t.panes[0];
    assert_eq!(left.title, "editor");
    assert_eq!(left.cwd, "/home/u");
    assert!(left.is_focused);
    assert_eq!((left.x, left.y, left.cols, left.rows), (0, 0, 110, 50));
    assert!(!left.is_plugin && !left.is_floating && !left.exited);

    let right = &t.panes[1];
    assert_eq!(right.title, "");
    assert_eq!(right.x, 110);
    assert!(!right.is_focused);

    assert_eq!(pane_reg.herdr_pane_id(left.id).as_deref(), Some("pane-left"));
    assert_eq!(pane_reg.terminal_id(left.id).as_deref(), Some("term-l"));
    assert_eq!(pane_reg.herdr_pane_id(right.id).as_deref(), Some("pane-right"));
    assert_eq!(pane_reg.terminal_id(right.id).as_deref(), Some("term-r"));

    assert_eq!(tab_reg.herdr_tab_id(t.tab_id).as_deref(), Some("tab-1"));
}

#[test]
fn transcode_marks_zoomed_tab_fullscreen() {
    let mut pane_reg = HerdrPaneRegistry::new();
    let mut tab_reg = HerdrTabRegistry::new();
    let tabs = vec![tab("tab-z", 1, "zoom", false)];
    let panes = vec![pane("pane-a", "term-a", "tab-z", Some("vim"))];
    let tab_layouts = vec![layout(
        "tab-z",
        true,
        vec![lp("pane-a", true, PaneLayoutRect { x: 0, y: 0, width: 220, height: 50 })],
    )];

    let snap = transcode_layout(&tabs, &panes, &tab_layouts, "tab-z", &mut pane_reg, &mut tab_reg);
    assert!(snap.tabs[0].fullscreen_active);
    assert!(snap.tabs[0].panes[0].is_fullscreen);
}

#[test]
fn transcode_active_tab_uses_workspace_active_tab_id_not_global_focus() {
    let mut pane_reg = HerdrPaneRegistry::new();
    let mut tab_reg = HerdrTabRegistry::new();
    let tabs = vec![tab("tab-1", 0, "one", false), tab("tab-2", 1, "two", false)];
    let panes = vec![
        pane("pane-1", "term-1", "tab-1", None),
        pane("pane-2", "term-2", "tab-2", None),
    ];
    let rect = PaneLayoutRect { x: 0, y: 0, width: 220, height: 50 };
    let tab_layouts = vec![
        layout("tab-1", false, vec![lp("pane-1", true, rect)]),
        layout("tab-2", false, vec![lp("pane-2", true, rect)]),
    ];

    let snap = transcode_layout(&tabs, &panes, &tab_layouts, "tab-2", &mut pane_reg, &mut tab_reg);

    assert_eq!(snap.tabs.len(), 2);
    assert!(!snap.tabs[0].active, "tab-1 is not the workspace's active tab");
    assert!(
        snap.tabs[1].active,
        "tab-2 == WorkspaceInfo.active_tab_id → exactly this tab is active despite focused=false"
    );
}

#[test]
fn transcode_tab_without_layout_has_no_panes_but_registers_terminal_ids() {
    let mut pane_reg = HerdrPaneRegistry::new();
    let mut tab_reg = HerdrTabRegistry::new();
    let tabs = vec![tab("tab-1", 0, "one", true), tab("tab-2", 1, "two", false)];
    let panes = vec![
        pane("pane-1", "term-1", "tab-1", None),
        pane("pane-2", "term-2", "tab-2", None),
    ];
    let tab_layouts = vec![layout(
        "tab-1",
        false,
        vec![lp("pane-1", true, PaneLayoutRect { x: 0, y: 0, width: 220, height: 50 })],
    )];

    let snap = transcode_layout(&tabs, &panes, &tab_layouts, "tab-1", &mut pane_reg, &mut tab_reg);
    assert_eq!(snap.tabs.len(), 2);
    assert_eq!(snap.tabs[0].panes.len(), 1);
    assert!(snap.tabs[1].panes.is_empty());

    let id2 = pane_reg.assign_or_get("pane-2", "term-2");
    assert_eq!(pane_reg.terminal_id(id2).as_deref(), Some("term-2"));
}

#[test]
fn ack_helpers_shape() {
    assert!(ack_ok().ok);
    let e = ack_err("boom".into());
    assert!(!e.ok);
    assert_eq!(e.error.as_deref(), Some("boom"));
    assert!(!unknown_pane(7).ok);
    assert!(!unknown_tab(7).ok);
}

#[test]
fn unknown_id_acks_name_the_id() {
    assert_eq!(unknown_pane(7).error.as_deref(), Some("unknown herdr pane id 7"));
    assert_eq!(unknown_tab(42).error.as_deref(), Some("unknown herdr tab id 42"));
}

#[test]
fn successive_requests_carry_distinct_ids() {
    let mut c = HerdrControl::new(
        "/nonexistent/herdr.sock".to_string(),
        HerdrPaneRegistry::new(),
        HerdrTabRegistry::new(),
    );
    let a = c.list_workspaces();
    let b = c.list_workspaces();
    assert_eq!(a.method, "workspace.list");
    assert_eq!(a.id, "muxrd-1");
    assert_eq!(b.id, "muxrd-2");
    assert_ne!(a.id, b.id);
}

#[test]
fn tab_operations_on_unknown_ids_answer_without_a_request() {
    let mut c = HerdrControl::new(
        "/nonexistent/herdr.sock".to_string(),
        HerdrPaneRegistry::new(),
        HerdrTabRegistry::new(),
    );
    let refused = c.focus_tab(9).expect_err("unknown tab id is refused");
    assert_eq!(refused.error.as_deref(), Some("unknown herdr tab id 9"));
    let refused = c.close_pane(3).expect_err("unknown pane id is refused");
    assert_eq!(refused.error.as_deref(), Some("unknown herdr pane id 3"));
    assert_eq!(c.list_workspaces().id, "muxrd-1", "no id was spent on the refusals");
}

#[test]
fn transcode_ids_count_from_one_and_resolve_back() {
    let mut pane_reg = HerdrPaneRegistry::new();
    let mut tab_reg = HerdrTabRegistry::new();
    let tabs = vec![tab("tab-1", 0, "one", false), tab("tab-2", 1, "two", false)];
    let panes = vec![
        pane("pane-1", "term-1", "tab-1", None),
        pane("pane-2", "term-2", "tab-2", None),
    ];
    let rect = PaneLayoutRect { x: 0, y: 0, width: 220, height: 50 };
    let tab_layouts = vec![
        layout("tab-1", false, vec![lp("pane-1", true, rect)]),
        layout("tab-2", false, vec![lp("pane-2", true, rect)]),
    ];

    let snap = transcode_layout(&tabs, &panes, &tab_layouts, "tab-2", &mut pane_reg, &mut tab_reg);

    assert_eq!(snap.tabs[0].tab_id, 1);
    assert_eq!(snap.tabs[1].tab_id, 2);
    assert_eq!(snap.tabs[0].panes[0].id, 1);
    assert_eq!(snap.tabs[1].panes[0].id, 2);
    assert_eq!(tab_reg.herdr_tab_id(snap.tabs[0].tab_id).as_deref(), Some("tab-1"));
    assert_eq!(tab_reg.herdr_tab_id(snap.tabs[1].tab_id).as_deref(), Some("tab-2"));
    assert_eq!(pane_reg.herdr_pane_id(snap.tabs[1].panes[0].id).as_deref(), Some("pane-2"));
    assert_eq!(pane_reg.terminal_id(snap.tabs[0].panes[0].id).as_deref(), Some("term-1"));
    assert_eq!(pane_reg.terminal_id(snap.tabs[1].panes[0].id).as_deref(), Some("term-2"));
    assert_eq!(tab_reg.herdr_tab_id(3), None);
    assert_eq!(pane_reg.herdr_pane_id(3), None);
}
