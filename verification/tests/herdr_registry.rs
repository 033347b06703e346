use muxr_core::herdr::registry::{HerdrPaneRegistry, HerdrTabRegistry};

#[test]
fn pane_ids_start_at_one_and_increment() {
    let mut reg = HerdrPaneRegistry::new();
    assert_eq!(reg.assign_or_get("pane-a", "term-a"), 1);
    assert_eq!(reg.assign_or_get("pane-b", "term-b"), 2);
}

#[test]
fn pane_id_is_stable_across_repeated_assigns() {
    let mut reg = HerdrPaneRegistry::new();
    let first = reg.assign_or_get("pane-a", "term-a");
    reg.assign_or_get("pane-b", "term-b");
    let again = reg.assign_or_get("pane-a", "term-a");
    assert_eq!(first, again, "same pane_id must map to the same u32");
}

#[test]
fn pane_round_trips_id_to_herdr_id_and_terminal_id() {
    let mut reg = HerdrPaneRegistry::new();
    let id = reg.assign_or_get("pane-xyz", "term-123");
    assert_eq!(reg.herdr_pane_id(id).as_deref(), Some("pane-xyz"));
    assert_eq!(reg.terminal_id(id).as_deref(), Some("term-123"));
}

#[test]
fn pane_terminal_id_refreshes_on_reassign() {
    let mut reg = HerdrPaneRegistry::new();
    let id = reg.assign_or_get("pane-a", "term-old");
    let same = reg.assign_or_get("pane-a", "term-new");
    assert_eq!(id, same);
    assert_eq!(reg.terminal_id(id).as_deref(), Some("term-new"));
}

#[test]
fn unknown_pane_id_returns_none() {
    let reg = HerdrPaneRegistry::new();
    assert!(reg.herdr_pane_id(999).is_none());
    assert!(reg.terminal_id(999).is_none());
}

#[test]
fn tab_ids_start_at_one_and_round_trip() {
    let mut reg = HerdrTabRegistry::new();
    assert_eq!(reg.assign_or_get("tab-a"), 1);
    assert_eq!(reg.assign_or_get("tab-b"), 2);
    assert_eq!(reg.assign_or_get("tab-a"), 1);
    assert_eq!(reg.herdr_tab_id(1).as_deref(), Some("tab-a"));
    assert_eq!(reg.herdr_tab_id(2).as_deref(), Some("tab-b"));
    assert!(reg.herdr_tab_id(99).is_none());
}
