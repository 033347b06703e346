use muxr_core::config::{
    check_h2c_bind_safety, config_template, resolve, resolve_cert_source, set_bind_addr, CertMode,
    CertSource, EffectiveConfig, FileConfig, IpAddress,
};

#[test]
fn cert_mode_from_cert_source() {
    assert_eq!(CertMode::from(CertSource::SelfSigned), CertMode::SelfSigned);
    assert_eq!(CertMode::from(CertSource::H2c), CertMode::H2c);
    assert_eq!(
        CertMode::from(CertSource::External { cert: "/c.pem".into(), key: "/k.pem".into() }),
        CertMode::External
    );
}

#[test]
fn cert_source_default_is_self_signed() {
    let src = resolve_cert_source(None, None, false, None, None, None).expect("should succeed");
    assert_eq!(src, CertSource::SelfSigned);
}

#[test]
fn cert_source_h2c_flag_wins_over_all() {
    let src = resolve_cert_source(None, None, true, None, None, None).expect("should succeed");
    assert_eq!(src, CertSource::H2c);
}

#[test]
fn cert_source_h2c_env_truthy() {
    let src = resolve_cert_source(None, None, false, None, None, Some("1")).expect("should succeed");
    assert_eq!(src, CertSource::H2c);
}

#[test]
fn cert_source_h2c_env_zero_is_falsy() {
    let src = resolve_cert_source(None, None, false, None, None, Some("0")).expect("should succeed");
    assert_eq!(src, CertSource::SelfSigned, "H2C=0 should not activate h2c");
}

#[test]
fn cert_source_h2c_env_empty_is_falsy() {
    let src = resolve_cert_source(None, None, false, None, None, Some("")).expect("should succeed");
    assert_eq!(src, CertSource::SelfSigned, "H2C=<empty> should not activate h2c");
}

#[test]
fn cert_source_external_requires_both_cert_and_key() {
    let err = resolve_cert_source(Some("/tmp/cert.pem".into()), None, false, None, None, None)
        .expect_err("should fail with only cert");
    assert!(err.contains("--tls-cert requires --tls-key"));
    let err = resolve_cert_source(None, Some("/tmp/key.pem".into()), false, None, None, None)
        .expect_err("should fail with only key");
    assert!(err.contains("--tls-key requires --tls-cert"));
}

#[test]
fn cert_source_external_both_paths_succeeds() {
    let src = resolve_cert_source(
        Some("/etc/ssl/cert.pem".into()),
        Some("/etc/ssl/key.pem".into()),
        false,
        None,
        None,
        None,
    )
    .expect("should succeed");
    assert_eq!(
        src,
        CertSource::External { cert: "/etc/ssl/cert.pem".into(), key: "/etc/ssl/key.pem".into() }
    );
}

#[test]
fn cert_source_h2c_with_cert_or_key_is_error() {
    let err = resolve_cert_source(Some("/tmp/cert.pem".into()), None, true, None, None, None)
        .expect_err("should fail");
    assert!(err.contains("--insecure-h2c serves no TLS"));
}

#[test]
fn cert_source_env_fallback_external() {
    let src = resolve_cert_source(None, None, false, Some("/env/cert.pem"), Some("/env/key.pem"), None)
        .expect("should succeed");
    assert_eq!(
        src,
        CertSource::External { cert: "/env/cert.pem".into(), key: "/env/key.pem".into() }
    );
}

#[test]
fn cert_source_cli_overrides_env() {
    let src = resolve_cert_source(
        Some("/cli/cert.pem".into()),
        Some("/cli/key.pem".into()),
        false,
        Some("/env/cert.pem"),
        Some("/env/key.pem"),
        None,
    )
    .expect("should succeed");
    assert_eq!(
        src,
        CertSource::External { cert: "/cli/cert.pem".into(), key: "/cli/key.pem".into() }
    );
}

const LO4: IpAddress = IpAddress::V4(127, 0, 0, 1);
const ANY4: IpAddress = IpAddress::V4(0, 0, 0, 0);
const LAN: IpAddress = IpAddress::V4(192, 168, 1, 100);
const LO6: IpAddress = IpAddress::V6(0, 0, 0, 0, 0, 0, 0, 1);
const ANY6: IpAddress = IpAddress::V6(0, 0, 0, 0, 0, 0, 0, 0);

#[test]
fn h2c_safety_non_h2c_always_ok() {
    for addr in [LO4, ANY4, LAN] {
        assert!(check_h2c_bind_safety(&CertSource::SelfSigned, addr, "a", false).is_ok());
        assert!(check_h2c_bind_safety(
            &CertSource::External { cert: "/c.pem".into(), key: "/k.pem".into() },
            addr,
            "a",
            false
        )
        .is_ok());
    }
}

#[test]
fn h2c_safety_loopback_always_allowed() {
    assert!(check_h2c_bind_safety(&CertSource::H2c, LO4, "127.0.0.1:50051", false).is_ok());
    assert!(check_h2c_bind_safety(&CertSource::H2c, LO4, "127.0.0.1:50051", true).is_ok());
    assert!(check_h2c_bind_safety(&CertSource::H2c, LO6, "[::1]:50051", false).is_ok());
}

#[test]
fn h2c_safety_non_loopback_denied_without_ack() {
    let addrs = [
        (ANY4, "0.0.0.0:50051"),
        (IpAddress::V4(192, 168, 1, 5), "192.168.1.5:50051"),
        (IpAddress::V4(10, 0, 0, 1), "10.0.0.1:50051"),
        (ANY6, "[::]:50051"),
    ];
    for (ip, text) in addrs {
        let err = check_h2c_bind_safety(&CertSource::H2c, ip, text, false)
            .expect_err("h2c on non-loopback without ack should fail");
        assert!(err.contains("--i-know-this-is-behind-a-proxy"));
        assert!(err.contains(text));
    }
}

#[test]
fn h2c_safety_non_loopback_allowed_with_ack() {
    for ip in [ANY4, IpAddress::V4(192, 168, 1, 5), ANY6] {
        assert!(check_h2c_bind_safety(&CertSource::H2c, ip, "x", true).is_ok());
    }
}

#[test]
fn resolve_applies_precedence_chain() {
    let file = FileConfig {
        bind_addr: Some("1.1.1.1:1".to_string()),
        cert_dir: None,
        log_path: Some("/var/log/m.log".to_string()),
    };
    let cfg = resolve(None, None, &file, "/data", "/data/config.toml");
    assert_eq!(cfg.bind_addr, "1.1.1.1:1");
    assert_eq!(cfg.cert_dir, "/data");
    assert_eq!(cfg.log_path, "/var/log/m.log");
    let cfg = resolve(Some("2.2.2.2:2"), Some("3.3.3.3:3"), &file, "/data", "/c");
    assert_eq!(cfg.bind_addr, "2.2.2.2:2");
    let cfg = resolve(None, Some("3.3.3.3:3"), &file, "/data", "/c");
    assert_eq!(cfg.bind_addr, "3.3.3.3:3");
    let cfg = resolve(None, None, &FileConfig::default(), "/data", "/c");
    assert_eq!(cfg.bind_addr, "127.0.0.1:50051");
    assert_eq!(cfg.log_path, "/data/muxrd.log");
}

#[test]
fn display_lists_each_field() {
    let cfg = EffectiveConfig {
        bind_addr: "b".to_string(),
        cert_dir: "c".to_string(),
        log_path: "l".to_string(),
        config_file: "f".to_string(),
    };
    assert_eq!(cfg.display(), "bind_addr  = b\ncert_dir   = c\nlog_path   = l\nconfig_file= f");
}

#[test]
fn set_bind_addr_round_trips() {
    let current = FileConfig {
        bind_addr: Some("127.0.0.1:50051".to_string()),
        cert_dir: Some("/certs".to_string()),
        log_path: None,
    };
    let up = set_bind_addr(current, "0.0.0.0:9999", "/data/config.toml").expect("has a parent");
    assert_eq!(up.updated.bind_addr.as_deref(), Some("0.0.0.0:9999"));
    assert_eq!(up.updated.cert_dir.as_deref(), Some("/certs"));
    assert_eq!(up.temp_path, "/data/.config.toml.tmp");
    let cfg = resolve(None, None, &up.updated, "/data", "/data/config.toml");
    assert_eq!(cfg.bind_addr, "0.0.0.0:9999", "resolved bind_addr should match what was written");
    assert!(set_bind_addr(FileConfig::default(), "x", "/").is_err());
}

#[test]
fn template_names_defaults() {
    let t = config_template("/d");
    assert!(t.starts_with("# muxrd configuration file\n"));
    assert!(t.contains("# bind_addr = \"127.0.0.1:50051\"\n"));
    assert!(t.contains("# cert_dir  = \"/d\"\n"));
    assert!(t.ends_with("# log_path  = \"/d/muxrd.log\"\n"));
}
