use muxr_core::grpc::helpers::{
    ack_to_proto, kind_from_proto, proto_backend, reject_if_read_only, route_control, route_reply,
    validate_layout_name, ControlEntry, ProtoBackend, ReadOnlyDenial, RouteDecision,
};
use muxr_core::multiplexer::routing::{is_collapsed_backend_session, BackendKind};
use muxr_core::multiplexer::types::ActionAck;

fn entry(conn: &str, session: &str, read_only: bool) -> ControlEntry {
    ControlEntry { connection_id: conn.to_string(), session: session.to_string(), read_only }
}

fn reply(entries: &Vec<ControlEntry>, session: &str, conn: &str) -> (RouteDecision, Option<muxr_core::grpc::helpers::ProtoAck>) {
    let d = route_control(entries, session, conn);
    (d, route_reply(is_collapsed_backend_session(session), d, true))
}

#[test]
fn proto_backend_maps_each_kind() {
    assert_eq!(proto_backend(BackendKind::Zellij), ProtoBackend::Zellij);
    assert_eq!(proto_backend(BackendKind::Herdr), ProtoBackend::Herdr);
}

#[test]
fn kind_from_proto_inverts_proto_backend() {
    for kind in [BackendKind::Zellij, BackendKind::Herdr] {
        assert_eq!(kind_from_proto(proto_backend(kind)), Some(kind));
    }
    assert_eq!(kind_from_proto(ProtoBackend::Unspecified), None);
}

#[test]
fn routes_by_connection_id_when_session_matches() {
    let entries = vec![entry("conn-1", "my-session", false)];
    let (d, ack) = reply(&entries, "my-session", "conn-1");
    assert_eq!(d, RouteDecision::Exact(0), "should route via connection_id");
    assert!(ack.expect("routed").ok);
}

#[test]
fn falls_back_to_session_when_connection_id_is_empty() {
    let entries = vec![entry("conn-2", "session-A", false)];
    let (d, ack) = reply(&entries, "session-A", "");
    assert_eq!(d, RouteDecision::Fallback(0), "session fallback should route");
    assert!(ack.expect("routed").ok);
}

#[test]
fn falls_back_to_session_when_connection_id_is_stale() {
    let entries = vec![entry("conn-3", "session-B", false)];
    let (d, _) = reply(&entries, "session-B", "stale-id-xyz");
    assert_eq!(d, RouteDecision::Fallback(0), "stale id should fall back to session relay");
}

#[test]
fn does_not_route_when_connection_id_session_mismatches() {
    let entries = vec![entry("conn-4", "session-C", false)];
    let (d, ack) = reply(&entries, "OTHER-SESSION", "conn-4");
    assert_eq!(d, RouteDecision::Unrouted, "session mismatch should not route");
    assert!(ack.is_none());
}

#[test]
fn returns_none_when_no_relay_for_session() {
    let entries: Vec<ControlEntry> = vec![];
    let (d, ack) = reply(&entries, "nonexistent-session", "");
    assert_eq!(d, RouteDecision::Unrouted);
    assert!(ack.is_none(), "no relay → None (caller uses ephemeral path)");
}

#[test]
fn per_connection_routing_targets_exact_relay_among_two() {
    let entries = vec![entry("conn-A", "shared-session", false), entry("conn-B", "shared-session", false)];
    assert_eq!(route_control(&entries, "shared-session", "conn-A"), RouteDecision::Exact(0));
    assert_eq!(route_control(&entries, "shared-session", "conn-B"), RouteDecision::Exact(1));
}

#[test]
fn collapsed_session_routes_on_exact_connection_id() {
    let entries = vec![entry("conn-abc123", "herdr:herdr", false)];
    let (d, ack) = reply(&entries, "herdr:herdr", "conn-abc123");
    assert_eq!(d, RouteDecision::Exact(0));
    let ack = ack.expect("collapsed exact match must return an ack");
    assert!(ack.ok, "exact match must be ok:true");
}

#[test]
fn collapsed_session_fails_closed_on_empty_connection_id() {
    let entries = vec![entry("victim-conn", "herdr:herdr", false)];
    let (d, ack) = reply(&entries, "herdr:herdr", "");
    assert_eq!(d, RouteDecision::FailClosed);
    let ack = ack.expect("collapsed session must return an explicit ack, not None");
    assert!(!ack.ok, "empty connection_id must fail closed");
    assert!(ack.error.contains("reattach required"), "error must explain reattach is required: {:?}", ack.error);
}

#[test]
fn collapsed_session_fails_closed_on_wrong_connection_id() {
    let entries = vec![entry("victim-conn", "herdr:herdr", false)];
    let (d, ack) = reply(&entries, "herdr:herdr", "guessed-2");
    assert_eq!(d, RouteDecision::FailClosed, "victim relay must NOT be steered by a guessed connection_id");
    assert!(!ack.expect("collapsed session must return an explicit ack").ok, "wrong connection_id must fail closed");
}

#[test]
fn collapsed_session_no_fallback_across_two_connections() {
    let entries = vec![entry("conn-a", "herdr:herdr", false), entry("conn-b", "herdr:herdr", false)];
    let (d, ack) = reply(&entries, "herdr:herdr", "");
    assert_eq!(d, RouteDecision::FailClosed, "relay A must not be steered");
    assert!(!ack.expect("must return ack").ok);
}

#[test]
fn fallback_skips_read_only_and_routes_to_writable() {
    let entries = vec![entry("conn-ro", "sess", true), entry("conn-rw", "sess", false)];
    assert_eq!(
        route_control(&entries, "sess", ""),
        RouteDecision::Fallback(1),
        "should route to the writable relay, not be blocked by read-only entry"
    );
}

#[test]
fn fallback_returns_none_when_only_read_only_relay_exists() {
    let entries = vec![entry("conn-ro-only", "sess-ro", true)];
    let (d, ack) = reply(&entries, "sess-ro", "");
    assert_eq!(d, RouteDecision::Unrouted);
    assert!(ack.is_none(), "only read-only relay → None (must fall through to ephemeral)");
}

#[test]
fn stale_id_fallback_skips_read_only_and_routes_to_writable() {
    let entries = vec![entry("conn-ro", "sess2", true), entry("conn-rw", "sess2", false)];
    assert_eq!(
        route_control(&entries, "sess2", "stale-xyz"),
        RouteDecision::Fallback(1),
        "stale id fallback should route to writable relay"
    );
}

#[test]
fn failed_send_to_a_relay_falls_back_or_fails_closed() {
    assert!(route_reply(false, RouteDecision::Exact(0), false).is_none());
    let ack = route_reply(true, RouteDecision::Exact(0), false).expect("collapsed answers");
    assert!(!ack.ok);
}

#[test]
fn reject_if_read_only_denies_when_extension_absent() {
    assert_eq!(reject_if_read_only(None), Err(ReadOnlyDenial::FlagMissing));
}

#[test]
fn reject_if_read_only_denies_read_only_token() {
    assert_eq!(reject_if_read_only(Some(true)), Err(ReadOnlyDenial::ReadOnlyToken));
}

#[test]
fn reject_if_read_only_allows_writable_token() {
    assert_eq!(reject_if_read_only(Some(false)), Ok(()));
}

#[test]
fn layout_name_is_a_bare_name() {
    assert!(validate_layout_name("compact").is_ok());
    assert!(validate_layout_name("../x").is_err());
    assert!(validate_layout_name("/abs/path.kdl").is_err());
    assert!(validate_layout_name("").is_err());
}

#[test]
fn ack_to_proto_fills_absent_strings_with_empty() {
    let p = ack_to_proto(ActionAck { ok: false, error: Some("e".to_string()), info: None });
    assert!(!p.ok);
    assert_eq!(p.error, "e");
    assert_eq!(p.info, "");
}

#[test]
fn read_only_denials_explain_themselves() {
    let ro = reject_if_read_only(Some(true)).unwrap_err();
    assert_eq!(ro.message(), "session token is read-only — mutating operations are not allowed");
    let missing = reject_if_read_only(None).unwrap_err();
    assert_eq!(
        missing.message(),
        "internal auth error: read-only flag not set — request denied (fail-closed)"
    );
}
