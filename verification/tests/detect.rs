use muxr_core::multiplexer::detect::{
    detect_backends, parse_zellij_version, probe_herdr, probe_zellij, VersionRun,
};
use muxr_core::multiplexer::routing::BackendKind;

#[test]
fn parse_version_extracts_semver_from_typical_output() {
    assert_eq!(parse_zellij_version("zellij 0.44.3\n"), "0.44.3");
    assert_eq!(parse_zellij_version("zellij 0.44.3"), "0.44.3");
}

#[test]
fn parse_version_returns_empty_for_unparseable_output() {
    assert_eq!(parse_zellij_version(""), "");
    assert_eq!(parse_zellij_version("   "), "");
}

#[test]
fn detect_some_herdr_error_message_names_backend() {
    let result = detect_backends(Some(BackendKind::Herdr), true, probe_herdr(false, false));
    match result {
        Err(msg) => {
            assert!(msg.contains("herdr"), "error message must name the failing backend; got: {msg}");
            assert!(msg.contains("not available"), "error message must say 'not available'; got: {msg}");
        }
        Ok(kinds) => panic!("herdr is absent, yet detection gave {kinds:?}"),
    }
    assert_eq!(
        detect_backends(Some(BackendKind::Herdr), false, probe_herdr(true, true)),
        Ok(vec![BackendKind::Herdr])
    );
}

#[test]
fn detect_some_zellij_returns_single_elem_vec_on_pass() {
    let run = VersionRun::Succeeded("zellij 0.44.3\n".to_string());
    let ok = probe_zellij(None, true, &run);
    assert!(ok);
    let result = detect_backends(Some(BackendKind::Zellij), ok, false);
    assert!(result.is_ok(), "probe passed but detect returned Err");
    assert_eq!(result.unwrap(), vec![BackendKind::Zellij]);
}

#[test]
fn zellij_probe_requires_the_linked_version_unless_skipped() {
    let old = VersionRun::Succeeded("zellij 0.43.0".to_string());
    assert!(!probe_zellij(None, true, &old));
    assert!(probe_zellij(Some("1"), true, &old), "the skip switch ignores the version");
    assert!(!probe_zellij(Some("0"), true, &old), "\"0\" does not set the switch");
    assert!(!probe_zellij(Some("1"), false, &old), "the binary must still be present");
    assert!(!probe_zellij(None, true, &VersionRun::Failed));
    assert!(!probe_zellij(None, true, &VersionRun::ExitedWithFailure));
}

#[test]
fn auto_detection_lists_every_passing_backend() {
    assert_eq!(
        detect_backends(None, true, true),
        Ok(vec![BackendKind::Zellij, BackendKind::Herdr])
    );
    assert_eq!(detect_backends(None, false, true), Ok(vec![BackendKind::Herdr]));
    assert_eq!(
        detect_backends(None, false, false),
        Err("No usable backend: install zellij 0.44.3 or start herdr".to_string())
    );
}
