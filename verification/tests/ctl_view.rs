use muxr_core::ctl::state::{AppState, Ipv4, ServerInfo};
use muxr_core::ctl::view::{
    config_status_line, form_value, format_uptime, ip_list, overview_lines, tab_lines, Tone, ViewLine,
};
use muxr_core::ctl::state::Screen;

#[test]
fn format_uptime_seconds() {
    assert_eq!(format_uptime(0), "0s");
    assert_eq!(format_uptime(59), "59s");
}

#[test]
fn format_uptime_minutes() {
    assert_eq!(format_uptime(60), "1m 0s");
    assert_eq!(format_uptime(3600), "1h 0m");
}

#[test]
fn format_uptime_days() {
    assert_eq!(format_uptime(86400), "1d 0h");
}

#[test]
fn format_uptime_mixed_units() {
    assert_eq!(format_uptime(3661), "1h 1m");
    assert_eq!(format_uptime(90061), "1d 1h");
    assert_eq!(format_uptime(125), "2m 5s");
}

fn field(label: &str, value: &str, tone: Tone) -> ViewLine {
    ViewLine::Field { label: label.to_string(), value: value.to_string(), tone }
}

#[test]
fn overview_of_running_server() {
    let mut st = AppState::new();
    st.server.status = Some(ServerInfo {
        version: "1".to_string(),
        bind_addr: "0.0.0.0:50051".to_string(),
        pid: 42,
        uptime_secs: 61,
        client_count: 2,
    });
    st.cert.fingerprint = "0123456789abcdef0123".to_string();
    st.cert.sans = vec!["a".to_string(), "b".to_string()];
    st.config.host = "10.0.0.2".to_string();
    st.config.port = "50051".to_string();
    st.config.reachable_ips = vec![Ipv4(10, 0, 0, 2), Ipv4(192, 168, 1, 5)];
    let lines = overview_lines(&st);
    let expected = vec![
        ViewLine::Heading("  Daemon".to_string()),
        field("    Status:  ", "● Running", Tone::Good),
        field("    Bind:    ", "0.0.0.0:50051", Tone::Accent),
        field("    PID:     ", "42", Tone::Body),
        field("    Uptime:  ", "1m 1s", Tone::Body),
        field("    Clients: ", "2", Tone::Good),
        ViewLine::Blank,
        ViewLine::Heading("  Cert".to_string()),
        field("    Fingerprint: ", "0123456789abcdef…", Tone::Accent),
        field("    SANs:        ", "2", Tone::Body),
        ViewLine::Blank,
        ViewLine::Heading("  Tokens".to_string()),
        field("    Count: ", "0", Tone::Body),
        ViewLine::Blank,
        ViewLine::Heading("  Network".to_string()),
        field("    Bind: ", "10.0.0.2:50051", Tone::Accent),
        field("    IPs:  ", "10.0.0.2, 192.168.1.5", Tone::Body),
    ];
    assert_eq!(lines, expected);
}

#[test]
fn overview_of_unloaded_state() {
    let mut st = AppState::new();
    st.server.stopped = true;
    let lines = overview_lines(&st);
    assert_eq!(lines[1], field("    Status:  ", "○ Stopped", Tone::Bad));
    assert!(lines.contains(&field("    Fingerprint: ", "(none — visit Cert screen)", Tone::Muted)));
    assert_eq!(lines.last().unwrap(), &field("    Bind: ", "(not yet loaded)", Tone::Muted));
    st.server.stopped = false;
    st.server.loading = true;
    let lines = overview_lines(&st);
    assert_eq!(lines[1], field("    Status:  ", "Querying…", Tone::Warn));
}

#[test]
fn ip_list_and_picker_texts() {
    assert_eq!(ip_list(&vec![]), "");
    assert_eq!(ip_list(&vec![Ipv4(1, 2, 3, 4)]), "1.2.3.4");
    let items = muxr_core::ctl::view::ip_picker_items(&vec![Ipv4(127, 0, 0, 1)]);
    assert_eq!(items, vec!["  127.0.0.1".to_string()]);
}

#[test]
fn tab_list_marks_only_the_active_screen() {
    let tabs = tab_lines(Screen::Cert);
    assert_eq!(tabs.len(), 5);
    assert_eq!(tabs[2], ("▶ Cert".to_string(), Tone::Accent));
    assert_eq!(tabs[0], ("  Dashboard".to_string(), Tone::Muted));
}

#[test]
fn config_form_texts() {
    assert_eq!(form_value(""), " … ");
    assert_eq!(form_value("host"), " host ");
    assert_eq!(config_status_line(true, ""), ("Loading config…".to_string(), Tone::Warn));
    assert_eq!(config_status_line(false, "Error: nope"), ("Error: nope".to_string(), Tone::Bad));
    assert_eq!(config_status_line(false, "Saved"), ("Saved".to_string(), Tone::Good));
}

#[test]
fn overview_short_fingerprint_cuts_at_sixteen_bytes() {
    let mut st = AppState::new();
    st.cert.fingerprint = "éééééééééé".to_string();
    let lines = overview_lines(&st);
    assert!(lines.contains(&field("    Fingerprint: ", "éééééééé…", Tone::Accent)));
    st.cert.fingerprint = "0123456789abcdef".to_string();
    let lines = overview_lines(&st);
    assert!(lines.contains(&field("    Fingerprint: ", "0123456789abcdef", Tone::Accent)));
}
