use muxr_core::ctl::state::{AdvertiseTrust, AppState, ConfigField, ConfigState, San, Screen, TokenRecord, TokensState};

#[test]
fn all_screens_have_distinct_labels() {
    for s in Screen::ALL {
        assert!(!s.label().is_empty());
    }
}

#[test]
fn next_wraps_around() {
    assert_eq!(Screen::Server.next(), Screen::Dashboard);
    assert_eq!(Screen::Dashboard.next(), Screen::Config);
}

#[test]
fn prev_wraps_around() {
    assert_eq!(Screen::Dashboard.prev(), Screen::Server);
    assert_eq!(Screen::Config.prev(), Screen::Dashboard);
}

#[test]
fn index_matches_all_order() {
    for (i, s) in Screen::ALL.iter().enumerate() {
        assert_eq!(s.index(), i);
    }
}

#[test]
fn default_state_lands_on_dashboard() {
    let state = AppState::new();
    assert_eq!(state.screen, Screen::Dashboard);
    assert!(!state.should_quit);
}

#[test]
fn config_state_apply_bind_addr() {
    let mut cs = ConfigState::default();
    cs.apply_bind_addr("0.0.0.0:50051");
    assert_eq!(cs.host, "0.0.0.0");
    assert_eq!(cs.port, "50051");
}

#[test]
fn config_state_apply_bind_addr_ipv6() {
    let mut cs = ConfigState::default();
    cs.apply_bind_addr("127.0.0.1:9090");
    assert_eq!(cs.host, "127.0.0.1");
    assert_eq!(cs.port, "9090");
}

#[test]
fn config_state_bind_addr_roundtrip() {
    let mut cs = ConfigState::default();
    cs.apply_bind_addr("192.168.1.5:50051");
    assert_eq!(cs.bind_addr(), "192.168.1.5:50051");
}

#[test]
fn apply_bind_addr_without_colon_defaults_port() {
    let mut cs = ConfigState::default();
    cs.apply_bind_addr("myhost");
    assert_eq!(cs.host, "myhost");
    assert_eq!(cs.port, "50051");
    assert_eq!(cs.bind_addr(), "myhost:50051");
}

#[test]
fn apply_bind_addr_splits_at_last_colon() {
    let mut cs = ConfigState::default();
    cs.apply_bind_addr("[::1]:7000");
    assert_eq!(cs.host, "[::1]");
    assert_eq!(cs.port, "7000");
}

#[test]
fn next_then_prev_returns_for_every_screen() {
    for s in Screen::ALL {
        assert_eq!(s.next().prev(), s);
        assert_eq!(s.prev().next(), s);
    }
}

#[test]
fn advertise_trust_cycles_with_period_three() {
    assert_eq!(AdvertiseTrust::Auto.cycle(), AdvertiseTrust::Ca);
    assert_eq!(AdvertiseTrust::Ca.cycle(), AdvertiseTrust::Pin);
    assert_eq!(AdvertiseTrust::Pin.cycle(), AdvertiseTrust::Auto);
    for t in [AdvertiseTrust::Auto, AdvertiseTrust::Ca, AdvertiseTrust::Pin] {
        assert_eq!(t.cycle().cycle().cycle(), t);
    }
}

#[test]
fn advertise_trust_persist_round_trips() {
    for t in [AdvertiseTrust::Auto, AdvertiseTrust::Ca, AdvertiseTrust::Pin] {
        assert_eq!(AdvertiseTrust::from_persist_str(t.persist_str()), t);
    }
    assert_eq!(AdvertiseTrust::from_persist_str("  PIN \n"), AdvertiseTrust::Pin);
    assert_eq!(AdvertiseTrust::from_persist_str("Ca"), AdvertiseTrust::Ca);
    assert_eq!(AdvertiseTrust::from_persist_str("bogus"), AdvertiseTrust::Auto);
    assert_eq!(AdvertiseTrust::Ca.label(), "CA (force)");
    assert_eq!(AdvertiseTrust::Pin.label(), "Pin (force)");
    assert_eq!(AdvertiseTrust::Auto.label(), "Auto");
}

#[test]
fn san_from_host_trims_and_classifies() {
    assert_eq!(San::from_host(" 10.0.0.1 ", true), San::Ip("10.0.0.1".to_string()));
    assert_eq!(San::from_host("example.com\t", false), San::Dns("example.com".to_string()));
    assert_eq!(San::Dns("x.y".to_string()).value(), "x.y");
}

#[test]
fn text_editing_follows_focus_and_form_phase() {
    let mut st = AppState::new();
    assert!(!st.is_text_editing());
    st.screen = Screen::Config;
    assert!(st.is_text_editing());
    st.config.focused = ConfigField::IpPicker;
    assert!(!st.is_text_editing());
    st.screen = Screen::Tokens;
    assert!(!st.is_text_editing());
    st.tokens.form_phase = muxr_core::ctl::state::TokensFormPhase::Creating;
    assert!(st.is_text_editing());
}

#[test]
fn selected_token_name_follows_cursor() {
    let mut ts = TokensState::default();
    assert_eq!(ts.selected_name(), None);
    ts.tokens.push(TokenRecord { name: "a".to_string() });
    ts.tokens.push(TokenRecord { name: "b".to_string() });
    ts.cursor = 1;
    assert_eq!(ts.selected_name(), Some("b"));
    ts.cursor = 2;
    assert_eq!(ts.selected_name(), None);
}
