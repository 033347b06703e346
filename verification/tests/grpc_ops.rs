use muxr_core::grpc::pane_ops::{
    check_tab_name, check_write_payload, floating_hint, optional_name, resize_dir_of,
    resize_kind_of, scroll_dir_of, FloatingHint, ProtoResizeKind, ProtoScrollDirection,
    MAX_WRITE_TO_PANE_BYTES,
};
use muxr_core::grpc::tokens::{
    check_revoke_name, create_token_name, list_tokens_reply, login_reply, revoke_token_reply,
    version_info, StoredToken,
};
use muxr_core::multiplexer::types::{ResizeDir, ResizeKind, ScrollDir};

#[test]
fn write_payload_limit() {
    assert!(check_write_payload(MAX_WRITE_TO_PANE_BYTES).is_ok());
    assert_eq!(
        check_write_payload(MAX_WRITE_TO_PANE_BYTES + 1),
        Err("WriteToPane: payload 1048577 bytes exceeds the 1048576 byte limit".to_string())
    );
}

#[test]
fn pane_request_fields() {
    assert_eq!(optional_name(String::new()), None);
    assert_eq!(optional_name("x".to_string()), Some("x".to_string()));
    assert_eq!(check_tab_name(""), Err("tab name must not be empty".to_string()));
    assert!(check_tab_name("t").is_ok());
    assert_eq!(resize_kind_of(Some(ProtoResizeKind::Decrease)), ResizeKind::Decrease);
    assert_eq!(resize_kind_of(None), ResizeKind::Increase);
    assert_eq!(resize_dir_of(3), Some(ResizeDir::Up));
    assert_eq!(resize_dir_of(0), None);
    assert_eq!(resize_dir_of(9), None);
    assert_eq!(scroll_dir_of(Some(ProtoScrollDirection::PageDown)), ScrollDir::PageDown);
    assert_eq!(scroll_dir_of(None), ScrollDir::Up);
}

#[test]
fn floating_hint_only_when_attested() {
    assert_eq!(floating_hint(false, true, true, true), None);
    assert_eq!(
        floating_hint(true, false, false, false),
        Some(FloatingHint {
            target_is_floating: false,
            floating_visible: false,
            target_is_focused_floating: false
        })
    );
}

#[test]
fn token_replies() {
    let v = version_info("1.2.3", "0.44.3");
    assert_eq!(v.server_version, "1.2.3");
    assert_eq!(v.zellij_version, "0.44.3");

    let ok = login_reply(Ok("sess".to_string()), Err("db down".to_string())).unwrap();
    assert_eq!(ok.session_token, "sess");
    assert!(!ok.is_read_only, "a failed read-only lookup reports read-write");
    assert_eq!(
        login_reply(Err("expired".to_string()), Ok(true)),
        Err("invalid auth token: expired".to_string())
    );

    assert_eq!(create_token_name("   "), None);
    assert_eq!(create_token_name("  phone \n"), Some("phone".to_string()));
    assert_eq!(check_revoke_name(" "), Err("RevokeToken: name must not be empty".to_string()));
    assert!(check_revoke_name("phone").is_ok());

    let listed = list_tokens_reply(&vec![StoredToken {
        name: "phone".to_string(),
        read_only: true,
        created_at: "2024-01-01".to_string(),
    }]);
    assert_eq!(listed.len(), 1);
    assert!(listed[0].token.is_empty(), "secrets are never listed");
    assert!(listed[0].read_only);

    let gone = revoke_token_reply(false, "phone");
    assert!(!gone.ok);
    assert_eq!(gone.error, "token 'phone' not found (already revoked or never existed)");
    assert!(revoke_token_reply(true, "phone").ok);
}

#[test]
fn fullscreen_requires_a_target() {
    assert_eq!(
        muxr_core::grpc::pane_ops::fullscreen_target(None),
        Err("TogglePaneFullscreen: missing target".to_string())
    );
}
