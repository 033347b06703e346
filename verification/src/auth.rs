//! Bearer-token authentication of the gRPC API.
//!
//! Every RPC but `GetVersion` and `Login` must carry
//! `authorization: Bearer <session_token>`. The header is read from the
//! request's `http::HeaderMap`; the token itself is then checked against the
//! token store by the caller, whose answers decide the verdict here. Any
//! failure to learn whether a token is read-only fails closed (read-only).

use vstd::prelude::*;
use vstd::string::StrSliceExecFns;

use crate::text::{push_char, str_eq};

verus! {

/// `http::HeaderMap` (a multimap of header names to values).
#[verifier::external_type_specification]
#[verifier::external_body]
#[verifier::reject_recursive_types(T)]
pub struct ExHeaderMap<T>(http::HeaderMap<T>);

/// `http::HeaderValue` (the value of one header).
#[verifier::external_type_specification]
#[verifier::external_body]
pub struct ExHeaderValue(http::HeaderValue);

/// Request extension: read-only flag of the authenticated session token.
#[derive(Debug, Clone, Copy, PartialEq, Eq, Structural)]
pub struct SessionReadOnly(pub bool);

/// Request extension: marker that the bearer check passed.
#[derive(Debug, Clone, Copy, PartialEq, Eq, Structural)]
pub struct BearerAuthenticated;

/// Request extension: the validated session token (never logged).
#[derive(Clone, PartialEq, Eq)]
pub struct SessionToken(pub String);

impl SessionToken {
    /// The token's redacted rendering for logs.
    pub fn redacted(&self) -> (r: &'static str)
        ensures
            r@ == "SessionToken(<redacted>)"@,
    {
        proof {
            reveal_strlit("SessionToken(<redacted>)");
        }
        "SessionToken(<redacted>)"
    }
}

/// The layer that puts [`BearerAuthService`] in front of a service.
#[derive(Debug, Clone, Copy, Default, PartialEq, Eq, Structural)]
pub struct BearerAuthLayer;

/// The service that enforces bearer auth before `inner`.
#[derive(Debug, Clone)]
pub struct BearerAuthService<S> {
    pub inner: S,
}

impl BearerAuthLayer {
    /// Wrap `inner` in the bearer check.
    pub fn layer<S>(&self, inner: S) -> (r: BearerAuthService<S>)
        ensures
            r.inner == inner,
    {
        BearerAuthService { inner }
    }
}

/// The gRPC paths that need no bearer token.
pub open spec fn public_path(path: Seq<char>) -> bool {
    path == "/muxr.v1.Muxr/GetVersion"@ || path == "/muxr.v1.Muxr/Login"@
}

/// Whether `path` is one of the public RPCs.
pub fn is_public_path(path: &str) -> (r: bool)
    ensures
        r == public_path(path@),
{
    str_eq(path, "/muxr.v1.Muxr/GetVersion") || str_eq(path, "/muxr.v1.Muxr/Login")
}

/// What a header map holds: each header name, in the lowercase form that
/// `http` stores names in, with its values (as bytes) in insertion order.
pub uninterp spec fn header_entries(headers: http::HeaderMap) -> Map<Seq<char>, Seq<Seq<u8>>>;

/// The first value of the `authorization` header, if there is one.
pub open spec fn authorization_header(headers: http::HeaderMap) -> Option<Seq<u8>> {
    let e = header_entries(headers);
    if e.contains_key("authorization"@) && e["authorization"@].len() > 0 {
        Some(e["authorization"@][0])
    } else {
        None
    }
}

/// The bytes of the request's `authorization` header. `HeaderMap::get`
/// returns the first value stored under a name (`None` when there is none)
/// and `HeaderValue::as_bytes` its bytes.
#[verifier::external_body]
fn authorization_bytes(headers: &http::HeaderMap) -> (r: Option<Vec<u8>>)
    ensures
        match r {
            Some(b) => header_entries(*headers).contains_key("authorization"@) && header_entries(
                *headers,
            )["authorization"@].len() > 0 && b@ == header_entries(*headers)["authorization"@][0],
            None => !(header_entries(*headers).contains_key("authorization"@) && header_entries(
                *headers,
            )["authorization"@].len() > 0),
        },
{
    headers.get(http::header::AUTHORIZATION).map(|v| v.as_bytes().to_vec())
}

/// A byte `http::HeaderValue::to_str` accepts: visible ASCII or tab.
pub open spec fn visible_ascii(b: u8) -> bool {
    (32 <= b && b < 127) || b == 9
}

/// The text of a byte string.
pub open spec fn ascii_text(bytes: Seq<u8>) -> Seq<char> {
    bytes.map_values(|b: u8| b as char)
}

/// `prefix` begins `s`.
pub open spec fn starts_with(s: Seq<char>, prefix: Seq<char>) -> bool {
    prefix.len() <= s.len() && s.subrange(0, prefix.len() as int) == prefix
}

/// The verdict on an `authorization` header: the bearer token, or the
/// refusal message.
pub open spec fn bearer_verdict(header: Option<Seq<u8>>) -> Result<Seq<char>, Seq<char>> {
    match header {
        None => Err("missing authorization header"@),
        Some(bytes) => if !(forall|i: int| 0 <= i < bytes.len() ==> visible_ascii(#[trigger] bytes[i])) {
            Err("authorization header is not valid ASCII"@)
        } else if !starts_with(ascii_text(bytes), "Bearer "@) {
            Err("authorization header must use Bearer scheme"@)
        } else if ascii_text(bytes).len() == 7 {
            Err("bearer token must not be empty"@)
        } else {
            Ok(ascii_text(bytes).subrange(7, ascii_text(bytes).len() as int))
        },
    }
}

/// Extract the bearer token from an `authorization` header value: it must
/// be present, visible ASCII, use the `Bearer ` scheme and carry a
/// non-empty token.
pub fn bearer_token(header: Option<Vec<u8>>) -> (r: Result<String, String>)
    ensures
        match bearer_verdict(
            match header {
                Some(b) => Some(b@),
                None => None,
            },
        ) {
            Ok(t) => r is Ok && r->Ok_0@ == t,
            Err(m) => r is Err && r->Err_0@ == m,
        },
{
    proof {
        reveal_strlit("Bearer ");
    }
    let bytes = match header {
        None => return Err("missing authorization header".to_owned()),
        Some(b) => b,
    };
    let mut text = String::new();
    let mut i: usize = 0;
    while i < bytes.len()
        invariant
            0 <= i <= bytes.len(),
            header == Some(bytes),
            forall|j: int| 0 <= j < i ==> visible_ascii(#[trigger] bytes@[j]),
            text@ == ascii_text(bytes@.take(i as int)),
        decreases bytes.len() - i,
    {
        let b = bytes[i];
        if !((32 <= b && b < 127) || b == 9) {
            assert(!visible_ascii(bytes@[i as int]));
            assert(!(forall|j: int| 0 <= j < bytes@.len() ==> visible_ascii(#[trigger] bytes@[j])));
            assert(bearer_verdict(Some(bytes@)) == Err::<Seq<char>, Seq<char>>(
                "authorization header is not valid ASCII"@,
            ));
            return Err("authorization header is not valid ASCII".to_owned());
        }
        push_char(&mut text, b as char);
        proof {
            assert(ascii_text(bytes@.take(i + 1)) =~= ascii_text(bytes@.take(i as int)).push(
                bytes@[i as int] as char,
            ));
        }
        i = i + 1;
    }
    proof {
        assert(bytes@.take(bytes@.len() as int) =~= bytes@);
    }
    let n = text.as_str().unicode_len();
    let prefix = "Bearer ";
    assert(prefix@.len() == 7);
    let mut ok = n >= 7;
    let mut k: usize = 0;
    while ok && k < 7
        invariant
            0 <= k <= 7,
            n == text@.len(),
            prefix@ == "Bearer "@,
            prefix@.len() == 7,
            ok ==> n >= 7,
            ok ==> forall|j: int| 0 <= j < k ==> text@[j] == prefix@[j],
            !ok ==> !starts_with(text@, "Bearer "@),
        decreases 7 - k,
    {
        if text.as_str().get_char(k) != prefix.get_char(k) {
            ok = false;
            proof {
                assert(text@.subrange(0, 7)[k as int] == text@[k as int]);
                if text@.subrange(0, 7) == prefix@ {
                    assert(text@.subrange(0, 7)[k as int] == prefix@[k as int]);
                }
            }
        }
        k = k + 1;
    }
    if !ok {
        return Err("authorization header must use Bearer scheme".to_owned());
    }
    proof {
        assert(text@.subrange(0, 7) =~= prefix@);
    }
    if n == 7 {
        return Err("bearer token must not be empty".to_owned());
    }
    let token = text.as_str().substring_char(7, n);
    Ok(token.to_owned())
}

/// Read and check the bearer token of a request's headers (see
/// [`bearer_token`]).
pub fn check_bearer(headers: &http::HeaderMap) -> (r: Result<String, String>)
    ensures
        match bearer_verdict(authorization_header(*headers)) {
            Ok(t) => r is Ok && r->Ok_0@ == t,
            Err(m) => r is Err && r->Err_0@ == m,
        },
{
    bearer_token(authorization_bytes(headers))
}

/// What the auth layer does with a request before the token store is
/// consulted.
#[derive(Debug, Clone, PartialEq, Eq)]
pub enum PreAuth {
    /// A public RPC: forward without a check.
    Public,
    /// The token to check against the store.
    Check(String),
    /// Refuse as unauthenticated with this message.
    Reject(String),
}

/// The first step of the auth layer: public paths pass; otherwise the
/// bearer token is extracted from the headers.
pub fn pre_auth(path: &str, headers: &http::HeaderMap) -> (r: PreAuth)
    ensures
        public_path(path@) ==> r == PreAuth::Public,
        !public_path(path@) ==> match bearer_verdict(authorization_header(*headers)) {
            Ok(t) => r matches PreAuth::Check(c) && c@ == t,
            Err(m) => r matches PreAuth::Reject(e) && e@ == m,
        },
{
    if is_public_path(path) {
        return PreAuth::Public;
    }
    match check_bearer(headers) {
        Ok(t) => PreAuth::Check(t),
        Err(m) => PreAuth::Reject(m),
    }
}

/// The verdict of the token store on a bearer token: `valid` is the
/// validity lookup, `read_only` the read-only lookup (each `Err` on a store
/// failure). A failed validity lookup or an invalid token is refused; a
/// failed read-only lookup fails closed to read-only.
pub fn auth_verdict(token: String, valid: Result<bool, String>, read_only: Result<bool, String>) -> (r:
    Result<(SessionReadOnly, BearerAuthenticated, SessionToken), String>)
    ensures
        valid is Err ==> r is Err && r->Err_0@ == "authentication error"@,
        valid == Ok::<bool, String>(false) ==> r is Err && r->Err_0@
            == "invalid or expired session token — call Login first"@,
        valid == Ok::<bool, String>(true) ==> r is Ok && r->Ok_0.0 == SessionReadOnly(
            match read_only {
                Ok(b) => b,
                Err(_) => true,
            },
        ) && r->Ok_0.2.0 == token,
{
    match valid {
        Err(_) => Err("authentication error".to_owned()),
        Ok(false) => Err("invalid or expired session token — call Login first".to_owned()),
        Ok(true) => {
            let ro = match read_only {
                Ok(b) => b,
                Err(_) => true,
            };
            Ok((SessionReadOnly(ro), BearerAuthenticated, SessionToken(token)))
        },
    }
}

} // verus!
