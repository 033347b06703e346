use muxr_core::multiplexer::types::{
    FullscreenHint, MuxEvent, MuxServerMsg, PaneRef, ResizeDir, ResizeKind,
};
use muxr_core::multiplexer::zellij::{
    from_pane_id, fullscreen_steps, map_zellij_message, to_direction, to_pane_id, to_resize,
    FullscreenStep, ZellijBackend, ZellijDirection, ZellijPaneId, ZellijResize, ZellijServerMsg,
};

#[test]
fn backend_version_is_non_empty() {
    let b = ZellijBackend;
    assert!(!b.backend_version().is_empty());
    assert_eq!(b.backend_version(), "0.44.3");
}

#[test]
fn validate_session_name_accepts_simple_and_rejects_traversal() {
    let b = ZellijBackend;
    assert!(b.validate_session_name("dev").is_ok());
    assert!(b.validate_session_name("../foo").is_err());
    assert!(b.validate_session_name("foo/bar").is_err());
}

#[test]
fn pane_ref_round_trips_through_zellij_pane_id() {
    assert_eq!(from_pane_id(to_pane_id(PaneRef::terminal(5))), PaneRef::terminal(5));
    assert_eq!(from_pane_id(to_pane_id(PaneRef::plugin(8))), PaneRef::plugin(8));
    assert_eq!(to_pane_id(PaneRef::terminal(5)), ZellijPaneId::Terminal(5));
    assert_eq!(to_pane_id(PaneRef::plugin(8)), ZellijPaneId::Plugin(8));
}

#[test]
fn resize_conversions_match_proto_handler() {
    assert_eq!(to_resize(ResizeKind::Increase), ZellijResize::Increase);
    assert_eq!(to_resize(ResizeKind::Decrease), ZellijResize::Decrease);
    assert_eq!(to_direction(ResizeDir::Left), ZellijDirection::Left);
    assert_eq!(to_direction(ResizeDir::Right), ZellijDirection::Right);
    assert_eq!(to_direction(ResizeDir::Up), ZellijDirection::Up);
    assert_eq!(to_direction(ResizeDir::Down), ZellijDirection::Down);
}

#[test]
fn fullscreen_toggle_steps_follow_the_floating_context() {
    let p = PaneRef::terminal(4);
    let id = ZellijPaneId::Terminal(4);
    let tiled = FullscreenHint { is_floating: false, floating_visible: false, is_focused_floating: false };
    assert_eq!(
        fullscreen_steps(p, tiled),
        vec![FullscreenStep::Focus(id), FullscreenStep::ToggleFocusFullscreen]
    );
    let focused_float = FullscreenHint { is_floating: true, floating_visible: true, is_focused_floating: true };
    assert_eq!(fullscreen_steps(p, focused_float), vec![FullscreenStep::HideFloatingPanes]);
    let hidden_float = FullscreenHint { is_floating: true, floating_visible: false, is_focused_floating: false };
    assert_eq!(
        fullscreen_steps(p, hidden_float),
        vec![
            FullscreenStep::ShowFloatingPanes,
            FullscreenStep::Focus(id),
            FullscreenStep::FillFloating(id)
        ]
    );
}

#[test]
fn zellij_messages_map_onto_the_neutral_stream() {
    match map_zellij_message(ZellijServerMsg::Render { content: "hé".to_string() }) {
        MuxServerMsg::Render(b) => assert_eq!(b, "hé".as_bytes().to_vec()),
        other => panic!("unexpected {other:?}"),
    }
    match map_zellij_message(ZellijServerMsg::Log { lines: vec!["a".into(), "b".into()] }) {
        MuxServerMsg::Log(s) => assert_eq!(s, "a\nb"),
        other => panic!("unexpected {other:?}"),
    }
    match map_zellij_message(ZellijServerMsg::SwitchSession { name: None }) {
        MuxServerMsg::Event(MuxEvent::SwitchSession { name }) => assert!(name.is_empty()),
        other => panic!("unexpected {other:?}"),
    }
    assert!(matches!(map_zellij_message(ZellijServerMsg::Other), MuxServerMsg::Other));
}
