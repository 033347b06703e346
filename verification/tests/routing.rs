use muxr_core::multiplexer::routing::{
    is_collapsed_backend_session, make_id, parse_backend_kind, resolve_session,
    resolve_session_kind, validate_session_name, BackendKind, RoutingError,
};

fn zellij_only_set() -> Vec<BackendKind> {
    vec![BackendKind::Zellij]
}

fn two_backend_set() -> Vec<BackendKind> {
    vec![BackendKind::Zellij, BackendKind::Herdr]
}

fn is_invalid(r: &Result<(BackendKind, String), RoutingError>) -> bool {
    matches!(r, Err(RoutingError::InvalidArgument(_)))
}

#[test]
fn is_collapsed_backend_session_is_true_only_for_herdr() {
    assert!(is_collapsed_backend_session("herdr:herdr"));
    assert!(is_collapsed_backend_session("herdr:anything"));
    assert!(!is_collapsed_backend_session("zellij:dev"));
    assert!(!is_collapsed_backend_session("zellij:herdr"));
    assert!(!is_collapsed_backend_session("herdr"));
    assert!(!is_collapsed_backend_session("dev"));
    assert!(!is_collapsed_backend_session(""));
}

#[test]
fn validate_session_accepts_a_plain_name() {
    assert!(validate_session_name("backend-dev_1").is_ok());
}

#[test]
fn validate_session_rejects_path_traversal() {
    assert!(validate_session_name("../etc").is_err());
    assert!(validate_session_name("a/b").is_err());
}

#[test]
fn resolve_session_strips_prefix_to_bare_name() {
    let (_, bare) =
        resolve_session(&zellij_only_set(), "zellij:dev").expect("zellij:dev should resolve");
    assert_eq!(bare, "dev");
}

#[test]
fn resolve_session_rejects_path_traversal_in_bare_name() {
    let r = resolve_session(&zellij_only_set(), "zellij:../etc");
    assert!(r.is_err(), "zellij:../etc must be rejected");
    assert!(is_invalid(&r));
}

#[test]
fn resolve_session_rejects_path_traversal_with_slash() {
    let r = resolve_session(&zellij_only_set(), "zellij:a/b");
    assert!(r.is_err(), "zellij:a/b must be rejected");
    assert!(is_invalid(&r));
}

#[test]
fn resolve_session_rejects_unknown_backend_prefix() {
    let r = resolve_session(&zellij_only_set(), "tmux:dev");
    assert!(r.is_err(), "unknown backend prefix must be rejected");
    assert!(is_invalid(&r));
}

#[test]
fn resolve_session_not_found_when_backend_absent() {
    let r = resolve_session(&zellij_only_set(), "herdr:dev");
    assert!(matches!(r, Err(RoutingError::NotFound(_))), "absent backend → NotFound");
}

#[test]
fn resolve_session_bare_name_falls_back_on_single_backend() {
    let (_, bare) = resolve_session(&zellij_only_set(), "dev")
        .expect("bare name should resolve on a single-backend server");
    assert_eq!(bare, "dev");
}

#[test]
fn resolve_session_bare_name_rejected_on_multi_backend() {
    let r = resolve_session(&two_backend_set(), "dev");
    assert!(r.is_err(), "bare name is ambiguous on a multi-backend server");
    assert!(is_invalid(&r));
}

#[test]
fn resolve_session_routes_each_prefix_to_its_backend() {
    let set = two_backend_set();
    let (_, bare_z) = resolve_session(&set, "zellij:a").expect("zellij prefix resolves");
    assert_eq!(bare_z, "a");
    let (_, bare_h) = resolve_session(&set, "herdr:b").expect("herdr prefix resolves");
    assert_eq!(bare_h, "b");
}

#[test]
fn make_id_round_trips_through_resolve_session() {
    let set = two_backend_set();
    let id = make_id(BackendKind::Herdr, "proj");
    assert_eq!(id, "herdr:proj", "make_id uses the lowercase Display scheme");
    let (_, bare) = resolve_session(&set, &id).expect("a minted id must resolve");
    assert_eq!(bare, "proj");
}

#[test]
fn list_sessions_minted_id_round_trips_with_kind() {
    let set = two_backend_set();
    for kind in [BackendKind::Zellij, BackendKind::Herdr] {
        let id = make_id(kind, "dev");
        let (resolved_kind, bare) =
            resolve_session_kind(&set, &id).expect("minted id must resolve");
        assert_eq!(resolved_kind, kind, "round-trip must preserve the backend");
        assert_eq!(bare, "dev");
    }
}

#[test]
fn backend_tokens_parse_back() {
    assert_eq!(BackendKind::Zellij.token(), "zellij");
    assert_eq!(BackendKind::Herdr.token(), "herdr");
    assert_eq!(parse_backend_kind("herdr"), Some(BackendKind::Herdr));
    assert_eq!(parse_backend_kind("zellij"), Some(BackendKind::Zellij));
    assert_eq!(parse_backend_kind("Zellij"), None);
    assert_eq!(parse_backend_kind("tmux"), None);
}

#[test]
fn routing_error_messages_quote_the_id() {
    match resolve_session(&zellij_only_set(), "tmux:dev") {
        Err(RoutingError::InvalidArgument(m)) => assert_eq!(
            m,
            "session id \"tmux:dev\" names an unknown backend (expected one of: zellij, herdr)"
        ),
        other => panic!("unexpected {other:?}"),
    }
    match resolve_session(&zellij_only_set(), "herdr:dev") {
        Err(RoutingError::NotFound(m)) => assert!(m.starts_with("session id \"herdr:dev\"")),
        other => panic!("unexpected {other:?}"),
    }
}
