use muxr_core::herdr::api::{AgentStatus, PaneLayoutRect, WorkspaceInfo};
use muxr_core::herdr::backend::{
    pick_active_or_first, session_size_from_area, space_from_workspace, BackendStep, HerdrBackend,
    DEFAULT_SESSION_COLS, DEFAULT_SESSION_ROWS, HERDR_SESSION, HERDR_SESSION_IMMUTABLE_MSG,
};
use muxr_core::herdr::paths::HerdrSocketPaths;
use muxr_core::herdr::wire::HERDR_PROTOCOL_VERSION;
use muxr_core::multiplexer::routing::validate_session_name;
use muxr_core::multiplexer::types::{PaneRef, ResizeDir, ResizeKind, ScrollDir};

fn backend() -> HerdrBackend {
    HerdrBackend::new(HerdrSocketPaths::from_api_socket("/nonexistent/herdr.sock"))
}

fn workspace(workspace_id: &str, label: &str, focused: bool) -> WorkspaceInfo {
    WorkspaceInfo {
        workspace_id: workspace_id.to_string(),
        number: 0,
        label: label.to_string(),
        focused,
        pane_count: 1,
        tab_count: 1,
        active_tab_id: "tab-1".to_string(),
        agent_status: AgentStatus::Idle,
        worktree: None,
    }
}

fn rect(width: u16, height: u16) -> PaneLayoutRect {
    PaneLayoutRect { x: 0, y: 0, width, height }
}

#[test]
fn session_size_derives_rows_cols_from_area() {
    let (rows, cols) = session_size_from_area(rect(220, 50));
    assert_eq!((rows, cols), (50, 220));
}

#[test]
fn session_size_falls_back_on_zero_dimensions() {
    let (rows, cols) = session_size_from_area(rect(0, 0));
    assert_eq!((rows, cols), (DEFAULT_SESSION_ROWS, DEFAULT_SESSION_COLS));
}

#[test]
fn session_size_falls_back_per_dimension() {
    let (rows, cols) = session_size_from_area(rect(100, 0));
    assert_eq!((rows, cols), (DEFAULT_SESSION_ROWS, 100));
}

#[test]
fn write_resize_scroll_are_honest_failures() {
    let b = backend();
    let p = PaneRef::terminal(1);
    let w = b.write_to_pane("s", p, b"x".to_vec()).unwrap();
    assert!(!w.ok);
    assert!(w.error.as_deref().unwrap().contains("write_to_pane"));

    let r = b
        .resize_pane("s", p, ResizeKind::Increase, Some(ResizeDir::Left))
        .unwrap();
    assert!(!r.ok);
    assert!(r.error.as_deref().unwrap().contains("resize_pane"));

    let s = b.scroll_pane("s", p, ScrollDir::HalfPageUp).unwrap();
    assert!(!s.ok);
    assert!(s.error.as_deref().unwrap().contains("scroll_pane"));
}

#[test]
fn unsupported_ack_names_the_operation_exactly() {
    let b = backend();
    let w = b.write_to_pane("s", PaneRef::terminal(1), vec![]).unwrap();
    assert_eq!(
        w.error.as_deref(),
        Some("write_to_pane is unsupported on the herdr backend")
    );
    assert!(w.info.is_none());
}

#[test]
fn focus_and_toggle_floating_are_benign_noops() {
    let b = backend();
    let p = PaneRef::terminal(1);
    assert!(b.focus_pane("s", p).unwrap().ok);
    assert!(b.toggle_pane_floating("s", p).unwrap().ok);
}

#[test]
fn pane_floating_visibility_is_always_false() {
    let b = backend();
    let (is_floating, visible, focused) = b
        .pane_is_floating_with_visibility("s", PaneRef::terminal(1))
        .unwrap();
    assert!(!is_floating);
    assert!(!visible);
    assert!(focused.is_none());
}

#[test]
fn backend_version_encodes_wire_protocol() {
    let b = backend();
    assert_eq!(
        b.backend_version(),
        format!("herdr-wire-v{HERDR_PROTOCOL_VERSION}")
    );
    assert_eq!(b.backend_version(), "herdr-wire-v14");
}

#[test]
fn validate_session_name_is_strict() {
    let b = backend();
    assert!(b.validate_session_name("dev").is_ok());
    assert!(b.validate_session_name("my-work_1").is_ok());
    assert!(b.validate_session_name("../foo").is_err());
    assert!(b.validate_session_name("foo/bar").is_err());
    assert!(b.validate_session_name("").is_err());
    assert!(b.validate_session_name("with space").is_err());
}

#[test]
fn space_from_workspace_maps_id_label_focused() {
    let s = space_from_workspace(workspace("ws-7", "logs", true));
    assert_eq!(s.id, "ws-7");
    assert_eq!(s.name, "logs");
    assert!(s.active, "active mirrors WorkspaceInfo.focused");

    let inactive = space_from_workspace(workspace("ws-8", "api", false));
    assert!(!inactive.active);
}

#[test]
fn pick_active_or_first_prefers_focused() {
    let workspaces = vec![
        workspace("ws-1", "main", false),
        workspace("ws-2", "logs", true),
        workspace("ws-3", "api", false),
    ];
    assert_eq!(
        pick_active_or_first(&workspaces).map(|i| workspaces[i].workspace_id.as_str()),
        Some("ws-2")
    );
}

#[test]
fn pick_active_or_first_falls_back_to_first_when_none_focused() {
    let workspaces = vec![
        workspace("ws-1", "main", false),
        workspace("ws-2", "logs", false),
    ];
    assert_eq!(
        pick_active_or_first(&workspaces).map(|i| workspaces[i].workspace_id.as_str()),
        Some("ws-1")
    );
}

#[test]
fn pick_active_or_first_is_none_for_empty_daemon() {
    assert!(pick_active_or_first(&vec![]).is_none());
}

#[test]
fn herdr_session_sentinel_passes_the_strict_ipc_guard() {
    assert!(validate_session_name(HERDR_SESSION).is_ok());
    assert_eq!(HERDR_SESSION, "herdr");
}

#[test]
fn list_sessions_collapses_to_one_daemon_session() {
    let b = backend();
    assert!(
        b.list_sessions(Err("connection refused".to_string())).is_err(),
        "unreachable daemon must error, not advertise a session"
    );
    let listed = b
        .list_sessions(Ok(vec![
            workspace("ws-1", "main", true),
            workspace("ws-2", "logs", false),
        ]))
        .unwrap();
    assert_eq!(listed, vec![("herdr".to_string(), 0u64, false)]);
}

#[test]
fn kill_session_rejects_the_sentinel_cleanly() {
    let mut b = backend();
    let err = b
        .kill_session(HERDR_SESSION, &vec![workspace("ws-1", "herdr", true)])
        .expect_err("the herdr session must not be killable");
    assert_eq!(err, HERDR_SESSION_IMMUTABLE_MSG);
    assert!(
        !err.contains("no workspace with label"),
        "must not leak the opaque workspace-not-found error: {err}"
    );
}

#[test]
fn rename_session_rejects_the_sentinel_as_clean_ok_false() {
    let mut b = backend();
    let step = b
        .rename_session(HERDR_SESSION, "whatever".to_owned(), &vec![])
        .expect("sentinel rename must be Ok(ack), not Err");
    match step {
        BackendStep::Done(ack) => {
            assert!(!ack.ok, "renaming the herdr session must report ok:false");
            assert_eq!(ack.error.as_deref(), Some(HERDR_SESSION_IMMUTABLE_MSG));
        }
        other => panic!("expected a settled ack, got {other:?}"),
    }
}

#[test]
fn registries_are_shared_with_control_client() {
    let b = backend();
    assert!(std::ptr::eq(b.pane_registry(), b.control().pane_registry()));
    assert!(std::ptr::eq(b.tab_registry(), b.control().tab_registry()));
}

#[test]
fn create_session_refuses_a_duplicate_label() {
    let mut b = backend();
    let existing = vec![workspace("ws-1", "dev", false)];
    match b.create_session("dev", &existing) {
        BackendStep::Done(ack) => assert!(!ack.ok),
        other => panic!("a duplicate label must be refused, got {other:?}"),
    }
    match b.create_session("fresh", &existing) {
        BackendStep::Send(req) => assert_eq!(req.method, "workspace.create"),
        other => panic!("a new label must be created, got {other:?}"),
    }
}

#[test]
fn kill_session_resolves_a_unique_label() {
    let mut b = backend();
    let ws = vec![workspace("ws-1", "dev", false), workspace("ws-2", "api", false)];
    let req = b.kill_session("api", &ws).expect("a unique label resolves");
    assert_eq!(req.method, "workspace.close");
    assert!(b.kill_session("missing", &ws).is_err());
    let dup = vec![workspace("ws-1", "dev", false), workspace("ws-2", "dev", false)];
    assert!(b.kill_session("dev", &dup).is_err(), "ambiguous label refused");
}
