use muxr_core::grpc::layout::{RelayViewState, ViewStateEntry};
use muxr_core::grpc::spaces::{
    close_space_guard, close_space_reply, connection_current_space, create_space_label,
    repoint_target, should_repoint_after_close, spaces_to_proto, switch_space_reply,
    validate_space_id, validate_space_label, would_close_last_space, Space, SwitchOutcome,
    MAX_SPACE_ID_LEN, MAX_SPACE_LABEL_LEN,
};
use muxr_core::grpc::helpers::{resolve_space_relay, ControlEntry};
use muxr_core::multiplexer::types::{ActionAck, SpaceSnapshot};

fn map_with_override(snaps: Vec<SpaceSnapshot>, relay_space: Option<&str>) -> Vec<Space> {
    spaces_to_proto(snaps, &relay_space.map(|s| s.to_string()))
}

fn snap(id: &str, name: &str, active: bool) -> SpaceSnapshot {
    SpaceSnapshot { id: id.to_owned(), name: name.to_owned(), active }
}

#[test]
fn would_close_last_space_rejects_zero_and_one() {
    assert!(would_close_last_space(0));
    assert!(would_close_last_space(1));
    assert!(!would_close_last_space(2));
    assert!(!would_close_last_space(7));
}

#[test]
fn space_label_accepts_sane_display_names() {
    assert!(validate_space_label("main").is_ok());
    assert!(validate_space_label("My Logs").is_ok());
    assert!(validate_space_label("api-v2.0").is_ok());
    assert!(validate_space_label("a_b-c.d e").is_ok());
}

#[test]
fn space_label_rejects_empty_too_long_and_bad_charset() {
    assert!(validate_space_label("").is_err(), "empty rejected");
    let too_long = "x".repeat(MAX_SPACE_LABEL_LEN + 1);
    assert!(validate_space_label(&too_long).is_err(), "too long rejected");
    let at_cap = "y".repeat(MAX_SPACE_LABEL_LEN);
    assert!(validate_space_label(&at_cap).is_ok(), "at-cap allowed");
    assert!(validate_space_label("bad/slash").is_err());
    assert!(validate_space_label("new\nline").is_err());
    assert!(validate_space_label("nul\0byte").is_err());
    assert!(validate_space_label("emoji✨").is_err());
    assert!(validate_space_label("tab\tchar").is_err());
}

#[test]
fn space_id_accepts_slug_and_uuid_shapes() {
    assert!(validate_space_id("ws-1").is_ok());
    assert!(validate_space_id("01HF8Z9K3T4Qm-abc.def").is_ok());
    assert!(validate_space_id("herdr:ws:7").is_ok());
}

#[test]
fn space_id_rejects_empty_too_long_and_bad_charset() {
    assert!(validate_space_id("").is_err());
    let too_long = "a".repeat(MAX_SPACE_ID_LEN + 1);
    assert!(validate_space_id(&too_long).is_err());
    assert!(
        validate_space_id("../escape").is_err(),
        "path traversal rejected"
    );
    assert!(validate_space_id("a b").is_err(), "whitespace rejected");
    assert!(validate_space_id("has\0nul").is_err());
}

#[test]
fn space_validation_messages() {
    assert_eq!(validate_space_label(""), Err("space label must not be empty".to_string()));
    assert_eq!(validate_space_label(&"z".repeat(65)), Err("space label too long (max 64 bytes)".to_string()));
    assert_eq!(validate_space_id("a b"), Err("invalid space_id: only [A-Za-z0-9_-.:] characters are allowed".to_string()));
    assert_eq!(create_space_label(""), Ok(None));
    assert_eq!(create_space_label("Logs"), Ok(Some("Logs".to_string())));
}

#[test]
fn override_marks_relay_space_active() {
    let mapped = map_with_override(vec![snap("a", "A", true), snap("b", "B", false)], Some("b"));
    assert!(!mapped[0].active, "backend-active 'a' must be cleared");
    assert!(mapped[1].active, "relay-current 'b' must be active");
}

#[test]
fn no_override_uses_backend_active() {
    let mapped = map_with_override(vec![snap("a", "A", true), snap("b", "B", false)], None);
    assert!(mapped[0].active, "backend-active 'a' must be preserved");
    assert!(!mapped[1].active);
}

#[test]
fn empty_backend_list_maps_to_empty() {
    assert!(map_with_override(vec![], None).is_empty());
    assert!(map_with_override(vec![], Some("x")).is_empty());
}

#[test]
fn resolve_space_relay_requires_exact_connection_id() {
    let entries = vec![ControlEntry { connection_id: "victim-conn".to_owned(), session: "herdr:herdr".to_owned(), read_only: false }];
    assert!(resolve_space_relay(&entries, "herdr:herdr", "victim-conn").is_some(), "exact connection_id must resolve");
    assert!(resolve_space_relay(&entries, "herdr:herdr", "").is_none(), "empty connection_id must fail closed (no session fallback)");
    assert!(resolve_space_relay(&entries, "herdr:herdr", "guessed-1").is_none(), "wrong connection_id must fail closed");
}

#[test]
fn connection_current_space_requires_exact_connection_id() {
    let state = RelayViewState { current_space: Some("ws-2".to_owned()), ..RelayViewState::default() };
    let states = vec![ViewStateEntry { connection_id: "victim-conn".to_owned(), session: "herdr:herdr".to_owned(), state }];
    assert_eq!(
        connection_current_space(&states, "herdr:herdr", "victim-conn").as_deref(),
        Some("ws-2"),
        "exact connection_id reads the connection's current_space"
    );
    assert!(connection_current_space(&states, "herdr:herdr", "").is_none(), "empty connection_id must not read a sibling's current_space");
    assert!(connection_current_space(&states, "herdr:herdr", "other-conn").is_none(), "wrong connection_id must not read a sibling's current_space");
}

#[test]
fn switch_and_close_replies() {
    assert!(switch_space_reply(SwitchOutcome::Switched).ok);
    let r = switch_space_reply(SwitchOutcome::Failed("boom".into()));
    assert_eq!(r.error, "SwitchSpace failed: boom");
    assert_eq!(switch_space_reply(SwitchOutcome::NoRelay).error, "reattach required (no matching connection)");
    assert_eq!(close_space_guard(1).unwrap().error, "cannot close the last space");
    assert!(close_space_guard(2).is_none());
    let fail = close_space_reply(ActionAck { ok: false, error: Some("busy".into()), info: None });
    assert_eq!((fail.ok, fail.error.as_str()), (false, "busy"));
    assert!(should_repoint_after_close(&Some("ws-1".into()), "ws-1"));
    assert!(!should_repoint_after_close(&Some("ws-1".into()), "ws-2"));
    assert_eq!(repoint_target(&vec![snap("a", "A", false), snap("b", "B", true)]), Some("b".to_string()));
    assert_eq!(repoint_target(&vec![snap("a", "A", false)]), Some("a".to_string()));
    assert_eq!(repoint_target(&vec![]), None);
}
