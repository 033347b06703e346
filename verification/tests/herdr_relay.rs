use muxr_core::herdr::api::{AgentStatus, PaneInfo};
use muxr_core::herdr::registry::HerdrPaneRegistry;
use muxr_core::herdr::relay::{
    assert_welcome, attach_message, focus_target, map_server_message, recv_payload,
    resolve_focused_terminal,
};
use muxr_core::herdr::wire::{
    ClientMessage, NotifyKind, RenderEncoding, ServerMessage, TerminalFrame,
    HERDR_PROTOCOL_VERSION,
};
use muxr_core::multiplexer::types::{MuxEvent, MuxServerMsg, PaneRef};

#[test]
fn terminal_frame_maps_to_render_bytes_verbatim() {
    let bytes = b"\x1b[2J\x1b[1;1Hhello".to_vec();
    let msg = map_server_message(ServerMessage::Terminal(TerminalFrame {
        seq: 1,
        width: 80,
        height: 24,
        full: true,
        bytes: bytes.clone(),
    }));
    match msg {
        MuxServerMsg::Render(out) => assert_eq!(out, bytes),
        other => panic!("expected Render, got {other:?}"),
    }
}

#[test]
fn incremental_terminal_frame_also_maps_to_render() {
    let msg = map_server_message(ServerMessage::Terminal(TerminalFrame {
        seq: 2,
        width: 80,
        height: 24,
        full: false,
        bytes: b"\x1b[5;1Hx".to_vec(),
    }));
    assert!(matches!(msg, MuxServerMsg::Render(_)));
}

#[test]
fn server_shutdown_maps_to_exit_event_with_reason() {
    let msg = map_server_message(ServerMessage::ServerShutdown {
        reason: Some("going down".into()),
    });
    match msg {
        MuxServerMsg::Event(MuxEvent::Exit { reason }) => assert_eq!(reason, "going down"),
        other => panic!("expected Exit event, got {other:?}"),
    }
}

#[test]
fn server_shutdown_without_reason_defaults_to_empty() {
    let msg = map_server_message(ServerMessage::ServerShutdown { reason: None });
    match msg {
        MuxServerMsg::Event(MuxEvent::Exit { reason }) => assert!(reason.is_empty()),
        other => panic!("expected Exit event, got {other:?}"),
    }
}

#[test]
fn drained_variants_map_to_other() {
    for msg in [
        ServerMessage::Welcome {
            version: HERDR_PROTOCOL_VERSION,
            encoding: RenderEncoding::TerminalAnsi,
            error: None,
        },
        ServerMessage::Graphics { bytes: vec![] },
        ServerMessage::Notify {
            kind: NotifyKind::Toast,
            message: "hi".into(),
            body: None,
        },
        ServerMessage::Clipboard { data: "x".into() },
        ServerMessage::WindowTitle { title: Some("t".into()) },
        ServerMessage::ReloadSoundConfig,
        ServerMessage::MouseCapture { enabled: true },
    ] {
        assert!(
            matches!(map_server_message(msg.clone()), MuxServerMsg::Other),
            "{msg:?} should map to Other"
        );
    }
}

#[test]
fn recv_from_empty_stream_returns_none() {
    let empty: &[u8] = &[];
    assert!(recv_payload(empty).is_none());
}

#[test]
fn recv_from_truncated_length_prefix_returns_none() {
    let partial: &[u8] = &[0x01, 0x02];
    assert!(recv_payload(partial).is_none());
}

#[test]
fn recv_payload_takes_one_complete_frame() {
    let stream: &[u8] = &[3, 0, 0, 0, 7, 8, 9, 42];
    assert_eq!(recv_payload(stream), Some(vec![7, 8, 9]));
    let short: &[u8] = &[3, 0, 0, 0, 7, 8];
    assert!(recv_payload(short).is_none(), "a frame cut short ends the relay");
}

#[test]
fn assert_welcome_accepts_v14_no_error() {
    assert!(assert_welcome(&ServerMessage::Welcome {
        version: HERDR_PROTOCOL_VERSION,
        encoding: RenderEncoding::TerminalAnsi,
        error: None,
    })
    .is_ok());
}

#[test]
fn assert_welcome_rejects_version_mismatch() {
    let r = assert_welcome(&ServerMessage::Welcome {
        version: 13,
        encoding: RenderEncoding::TerminalAnsi,
        error: None,
    });
    assert!(r.is_err());
    assert_eq!(
        r.unwrap_err(),
        "herdr wire protocol mismatch: server speaks v13, muxrd requires v14"
    );
}

#[test]
fn assert_welcome_rejects_handshake_error() {
    let r = assert_welcome(&ServerMessage::Welcome {
        version: HERDR_PROTOCOL_VERSION,
        encoding: RenderEncoding::TerminalAnsi,
        error: Some("no such terminal".into()),
    });
    assert!(r.is_err());
    assert_eq!(r.unwrap_err(), "herdr rejected the handshake: no such terminal");
}

#[test]
fn assert_welcome_rejects_non_welcome_first_message() {
    assert!(assert_welcome(&ServerMessage::ReloadSoundConfig).is_err());
}

fn pane(pane_id: &str, terminal_id: &str, focused: bool) -> PaneInfo {
    PaneInfo {
        pane_id: pane_id.to_string(),
        terminal_id: terminal_id.to_string(),
        workspace_id: "ws-1".to_string(),
        tab_id: "tab-1".to_string(),
        focused,
        cwd: None,
        foreground_cwd: None,
        label: None,
        agent: None,
        title: None,
        display_agent: None,
        agent_status: AgentStatus::Idle,
        custom_status: None,
        state_labels: vec![],
        agent_session: None,
        revision: 1,
    }
}

#[test]
fn attach_follows_the_focused_pane_else_the_first() {
    let mut reg = HerdrPaneRegistry::new();
    let panes = vec![pane("p-1", "t-1", false), pane("p-2", "t-2", true)];
    let (id, term) = resolve_focused_terminal(&panes, &mut reg, "ws-1").unwrap();
    assert_eq!(term, "t-2");
    assert_eq!(reg.herdr_pane_id(id).as_deref(), Some("p-2"));

    let unfocused = vec![pane("p-1", "t-1", false), pane("p-3", "t-3", false)];
    let (_, term) = resolve_focused_terminal(&unfocused, &mut reg, "ws-1").unwrap();
    assert_eq!(term, "t-1");

    let err = resolve_focused_terminal(&vec![], &mut reg, "ws-9").unwrap_err();
    assert_eq!(err, "herdr workspace 'ws-9' has no panes to attach");
}

#[test]
fn focus_target_uses_the_recorded_terminal() {
    let mut reg = HerdrPaneRegistry::new();
    let id = reg.assign_or_get("p-1", "t-1");
    assert_eq!(focus_target(&reg, PaneRef::terminal(id)), Ok("t-1".to_string()));
    assert_eq!(
        focus_target(&reg, PaneRef::terminal(77)),
        Err("herdr focus_pane: unknown pane id 77".to_string())
    );
    assert_eq!(
        attach_message("t-1".to_string()),
        ClientMessage::AttachTerminal { terminal_id: "t-1".to_string(), takeover: true }
    );
}
