use base64::Engine;
use muxr_core::ctl::payload::{percent_encode, PairingParams, PairingTrust};

fn fake_fp() -> String {
    "a1b2c3d4e5f6".repeat(5) + "a1b2c3d4"
}

fn pin_params(read_only: bool) -> PairingParams {
    PairingParams {
        host: "192.168.1.10".to_string(),
        port: 50051,
        trust: PairingTrust::Pin { fingerprint: fake_fp() },
        token: "mysecrettoken".to_string(),
        read_only,
        label: "Home desktop".to_string(),
    }
}

fn ca_params(read_only: bool) -> PairingParams {
    PairingParams {
        host: "zelli.example.com".to_string(),
        port: 443,
        trust: PairingTrust::Ca,
        token: "mysecrettoken".to_string(),
        read_only,
        label: "Cloud server".to_string(),
    }
}

fn t_value(uri: &str) -> String {
    uri.split('&')
        .find(|s| s.starts_with("t="))
        .and_then(|s| s.strip_prefix("t="))
        .expect("URI should contain t= parameter")
        .to_string()
}

#[test]
fn uri_has_correct_scheme_and_host() {
    let uri = pin_params(false).to_uri();
    assert!(uri.starts_with("muxr://pair?"), "URI should start with muxr://pair? but got: {uri}");
}

#[test]
fn uri_contains_version_2() {
    let uri = pin_params(false).to_uri();
    assert!(uri.contains("v=2"), "URI should contain v=2: {uri}");
}

#[test]
fn uri_does_not_contain_version_1() {
    let uri = pin_params(false).to_uri();
    assert!(!uri.contains("v=1"), "Emitter should no longer write v=1: {uri}");
}

#[test]
fn pin_uri_contains_tm_pin() {
    let uri = pin_params(false).to_uri();
    assert!(uri.contains("tm=pin"), "Pin URI should contain tm=pin: {uri}");
}

#[test]
fn pin_uri_contains_fingerprint() {
    let params = pin_params(false);
    let uri = params.to_uri();
    let fp = match &params.trust {
        PairingTrust::Pin { fingerprint } => fingerprint.clone(),
        PairingTrust::Ca => panic!("expected Pin"),
    };
    assert!(uri.contains(&format!("fp={fp}")), "Pin URI should contain fp=<fingerprint>: {uri}");
}

#[test]
fn pin_uri_round_trip_v2_with_fp() {
    let params = pin_params(false);
    let uri = params.to_uri();
    assert!(uri.contains("v=2"), "v=2: {uri}");
    assert!(uri.contains("tm=pin"), "tm=pin: {uri}");
    let fp = match &params.trust {
        PairingTrust::Pin { fingerprint } => fingerprint.clone(),
        _ => panic!("expected Pin"),
    };
    assert!(uri.contains(&format!("fp={}", fp)), "fp present: {uri}");
}

#[test]
fn ca_uri_contains_tm_ca() {
    let uri = ca_params(false).to_uri();
    assert!(uri.contains("tm=ca"), "CA URI should contain tm=ca: {uri}");
}

#[test]
fn ca_uri_has_no_fp_param() {
    let uri = ca_params(false).to_uri();
    assert!(!uri.contains("fp="), "CA URI must NOT contain fp= param: {uri}");
}

#[test]
fn ca_uri_round_trip_v2_no_fp() {
    let uri = ca_params(false).to_uri();
    assert!(uri.contains("v=2"), "v=2: {uri}");
    assert!(uri.contains("tm=ca"), "tm=ca: {uri}");
    assert!(!uri.contains("fp="), "no fp: {uri}");
}

#[test]
fn uri_contains_host_and_port() {
    let uri = pin_params(false).to_uri();
    assert!(uri.contains("h=192.168.1.10"), "URI should contain host: {uri}");
    assert!(uri.contains("p=50051"), "URI should contain port: {uri}");
}

#[test]
fn uri_token_is_base64url_encoded() {
    let params = pin_params(false);
    let uri = params.to_uri();
    let t_val = t_value(&uri);
    let decoded = base64::engine::general_purpose::URL_SAFE_NO_PAD
        .decode(t_val)
        .expect("t= value should be valid base64url");
    assert_eq!(
        std::str::from_utf8(&decoded).unwrap(),
        params.token,
        "base64url-decoded token should match original"
    );
}

#[test]
fn ca_uri_token_is_base64url_encoded() {
    let params = ca_params(false);
    let uri = params.to_uri();
    let t_val = t_value(&uri);
    let decoded = base64::engine::general_purpose::URL_SAFE_NO_PAD
        .decode(t_val)
        .expect("t= value should be valid base64url");
    assert_eq!(
        std::str::from_utf8(&decoded).unwrap(),
        params.token,
        "base64url-decoded token should match original"
    );
}

#[test]
fn uri_ro_flag_read_only() {
    let uri = pin_params(true).to_uri();
    assert!(uri.contains("ro=1"), "read-only URI should have ro=1: {uri}");
}

#[test]
fn uri_ro_flag_read_write() {
    let uri = pin_params(false).to_uri();
    assert!(uri.contains("ro=0"), "read-write URI should have ro=0: {uri}");
}

#[test]
fn uri_label_is_percent_encoded() {
    let uri = pin_params(false).to_uri();
    assert!(uri.contains("n=Home%20desktop"), "label should be percent-encoded in URI: {uri}");
}

#[test]
fn ca_uri_label_is_percent_encoded() {
    let uri = ca_params(false).to_uri();
    assert!(uri.contains("n=Cloud%20server"), "label should be percent-encoded in CA URI: {uri}");
}

#[test]
fn pin_uri_all_required_params_present() {
    let uri = pin_params(false).to_uri();
    for param in &["v=", "h=", "p=", "t=", "ro=", "n=", "tm=", "fp="] {
        assert!(uri.contains(param), "Pin URI should contain param {param}: {uri}");
    }
}

#[test]
fn ca_uri_all_required_params_present_no_fp() {
    let uri = ca_params(false).to_uri();
    for param in &["v=", "h=", "p=", "t=", "ro=", "n=", "tm="] {
        assert!(uri.contains(param), "CA URI should contain param {param}: {uri}");
    }
    assert!(!uri.contains("fp="), "CA URI must not have fp=: {uri}");
}

#[test]
fn percent_encode_unreserved_chars_unchanged() {
    let s = "abcABC012-_.~";
    assert_eq!(percent_encode(s), s, "unreserved chars should not be encoded");
}

#[test]
fn percent_encode_spaces_and_special() {
    assert_eq!(percent_encode(" "), "%20");
    assert_eq!(percent_encode("a b"), "a%20b");
    assert_eq!(percent_encode("a/b"), "a%2Fb");
    assert_eq!(percent_encode("a+b"), "a%2Bb");
}

#[test]
fn percent_encode_multibyte_and_separators() {
    assert_eq!(percent_encode("é"), "%C3%A9");
    assert_eq!(percent_encode("a&b=c"), "a%26b%3Dc");
    let out = percent_encode("x&y=z?w#v");
    assert!(!out.contains('&') && !out.contains('='));
}

#[test]
fn exact_pairing_uri_for_ca_mode() {
    let p = PairingParams {
        host: "h".to_string(),
        port: 1,
        trust: PairingTrust::Ca,
        token: "ab".to_string(),
        read_only: true,
        label: "L x".to_string(),
    };
    assert_eq!(p.to_uri(), "muxr://pair?v=2&h=h&p=1&t=YWI&ro=1&n=L%20x&tm=ca");
}

#[test]
fn percent_encode_of_concatenation_concatenates() {
    let a = "Home desk&";
    let b = "tö=p";
    let joined = format!("{a}{b}");
    assert_eq!(percent_encode(&joined), percent_encode(a) + &percent_encode(b));
    assert_eq!(percent_encode(&joined), "Home%20desk%26t%C3%B6%3Dp");
}

#[test]
fn percent_encode_output_uses_only_unreserved_and_percent() {
    let out = percent_encode("a b&c=d/é?#[]!");
    assert!(out
        .chars()
        .all(|c| c.is_ascii_alphanumeric() || "-_.~%".contains(c)));
    assert_ne!(out, "a b&c=d/é?#[]!");
    assert!(out.len() > "a b&c=d/é?#[]!".len());
}
