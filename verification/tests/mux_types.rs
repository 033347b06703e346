use muxr_core::multiplexer::types::{
    ActionAck, LayoutSnapshot, PaneRef, PaneSnapshot, ScrollDir, TabSnapshot,
};

#[test]
fn pane_ref_constructors_set_is_plugin() {
    assert_eq!(PaneRef::terminal(7), PaneRef { id: 7, is_plugin: false });
    assert_eq!(PaneRef::plugin(9), PaneRef { id: 9, is_plugin: true });
}

#[test]
fn action_ack_passthrough_is_the_same_type() {
    let a: ActionAck = ActionAck { ok: true, error: None, info: Some("terminal_3".into()) };
    let b: ActionAck = a.clone();
    assert_eq!(a.ok, b.ok);
    assert_eq!(a.info, b.info);
}

#[test]
fn scroll_dir_is_re_exported() {
    let _d: ScrollDir = ScrollDir::HalfPageUp;
}

#[test]
fn layout_snapshot_round_trips_through_clone_eq() {
    let snap = LayoutSnapshot {
        tabs: vec![TabSnapshot {
            tab_id: 1,
            position: 0,
            name: "main".into(),
            active: true,
            has_bell: false,
            panes_to_hide: 0,
            fullscreen_active: false,
            floating_panes_visible: false,
            panes: vec![PaneSnapshot {
                id: 3,
                title: "zsh".into(),
                is_focused: true,
                is_floating: false,
                exited: false,
                command: "zsh".into(),
                cwd: "/home".into(),
                x: 0,
                y: 0,
                rows: 24,
                cols: 80,
                is_plugin: false,
                is_fullscreen: false,
            }],
        }],
    };
    assert_eq!(snap, snap.clone());
}
