use muxr_core::auth::{
    auth_verdict, bearer_token, check_bearer, is_public_path, pre_auth, BearerAuthLayer,
    PreAuth, SessionReadOnly, SessionToken,
};

fn headers(value: Option<&str>) -> http::HeaderMap {
    let mut h = http::HeaderMap::new();
    if let Some(v) = value {
        h.insert(http::header::AUTHORIZATION, http::HeaderValue::from_str(v).unwrap());
    }
    h
}

#[test]
fn public_paths_skip_the_bearer_check() {
    assert!(is_public_path("/muxr.v1.Muxr/GetVersion"));
    assert!(is_public_path("/muxr.v1.Muxr/Login"));
    assert!(!is_public_path("/muxr.v1.Muxr/ListSessions"));
    assert_eq!(pre_auth("/muxr.v1.Muxr/Login", &headers(None)), PreAuth::Public);
}

#[test]
fn bearer_header_is_parsed() {
    assert_eq!(check_bearer(&headers(Some("Bearer abc123"))), Ok("abc123".to_string()));
    assert_eq!(
        pre_auth("/muxr.v1.Muxr/ListSessions", &headers(Some("Bearer tok"))),
        PreAuth::Check("tok".to_string())
    );
    assert_eq!(
        pre_auth("/muxr.v1.Muxr/ListSessions", &headers(None)),
        PreAuth::Reject("missing authorization header".to_string())
    );
}

#[test]
fn bearer_refusals() {
    assert_eq!(bearer_token(None), Err("missing authorization header".to_string()));
    assert_eq!(
        bearer_token(Some(b"Basic dXNlcg==".to_vec())),
        Err("authorization header must use Bearer scheme".to_string())
    );
    assert_eq!(
        bearer_token(Some(b"Bearer ".to_vec())),
        Err("bearer token must not be empty".to_string())
    );
    assert_eq!(
        bearer_token(Some(vec![b'B', 0xC3, 0xA9])),
        Err("authorization header is not valid ASCII".to_string())
    );
    assert_eq!(bearer_token(Some(b"Bearer a b".to_vec())), Ok("a b".to_string()));
}

#[test]
fn store_verdicts_fail_closed() {
    let (ro, _, tok) = auth_verdict("t".to_string(), Ok(true), Err("db".to_string())).unwrap();
    assert_eq!(ro, SessionReadOnly(true), "a failed read-only lookup is read-only");
    assert!(tok == SessionToken("t".to_string()));
    let (ro, _, _) = auth_verdict("t".to_string(), Ok(true), Ok(false)).unwrap();
    assert_eq!(ro, SessionReadOnly(false));
    assert_eq!(
        auth_verdict("t".to_string(), Ok(false), Ok(false)).err(),
        Some("invalid or expired session token — call Login first".to_string())
    );
    assert_eq!(
        auth_verdict("t".to_string(), Err("io".to_string()), Ok(false)).err(),
        Some("authentication error".to_string())
    );
}

#[test]
fn session_token_is_redacted_and_layer_wraps() {
    assert_eq!(SessionToken("secret".to_string()).redacted(), "SessionToken(<redacted>)");
    let svc = BearerAuthLayer.layer(7u8);
    assert_eq!(svc.inner, 7u8);
}
