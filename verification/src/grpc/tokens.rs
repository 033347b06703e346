//! Login and token management: the replies built from the token store's
//! answers, and the request checks. Existing secrets are never listed.

use vstd::prelude::*;
use vstd::string::StrSliceExecFns;

use crate::grpc::helpers::ProtoAck;
use crate::text::{push_str, trim, trimmed};

verus! {

/// The proto `VersionInfo`.
#[derive(Debug, Clone, PartialEq, Eq)]
pub struct VersionInfo {
    pub server_version: String,
    pub zellij_version: String,
}

/// The proto `LoginResponse`.
#[derive(Debug, Clone, PartialEq, Eq)]
pub struct LoginResponse {
    pub session_token: String,
    pub is_read_only: bool,
}

/// The proto `TokenInfo` (`token` carries a secret only right after
/// creation).
#[derive(Debug, Clone, PartialEq, Eq)]
pub struct TokenInfo {
    pub name: String,
    pub token: String,
    pub read_only: bool,
    pub created_at: String,
}

/// One stored token's metadata, as the store lists it.
#[derive(Debug, Clone, PartialEq, Eq)]
pub struct StoredToken {
    pub name: String,
    pub read_only: bool,
    pub created_at: String,
}

/// The GetVersion reply.
pub fn version_info(server_version: &str, zellij_version: &str) -> (r: VersionInfo)
    ensures
        r.server_version@ == server_version@,
        r.zellij_version@ == zellij_version@,
{
    VersionInfo { server_version: server_version.to_owned(), zellij_version: zellij_version.to_owned() }
}

/// The Login reply for the store's answers: an invalid auth token is
/// refused (`"invalid auth token: <reason>"`); the read-only flag is
/// advisory, so a failed lookup reports read-write.
pub fn login_reply(issued: Result<String, String>, read_only: Result<bool, String>) -> (r: Result<
    LoginResponse,
    String,
>)
    ensures
        match issued {
            Ok(t) => r is Ok && r->Ok_0.session_token == t && r->Ok_0.is_read_only == (match read_only {
                Ok(b) => b,
                Err(_) => false,
            }),
            Err(e) => r is Err && r->Err_0@ == "invalid auth token: "@ + e@,
        },
{
    match issued {
        Ok(session_token) => {
            let is_read_only = match read_only {
                Ok(b) => b,
                Err(_) => false,
            };
            Ok(LoginResponse { session_token, is_read_only })
        },
        Err(e) => {
            let mut m = String::new();
            push_str(&mut m, "invalid auth token: ");
            push_str(&mut m, e.as_str());
            Err(m)
        },
    }
}

/// The name CreateToken asks the store for: the trimmed request name, or
/// none (the store picks one) when it is blank.
pub fn create_token_name(name: &str) -> (r: Option<String>)
    ensures
        trim(name@).len() == 0 ==> r is None,
        trim(name@).len() > 0 ==> r is Some && r->0@ == trim(name@),
{
    let n = trimmed(name);
    if n.as_str().unicode_len() == 0 {
        None
    } else {
        Some(n)
    }
}

/// The CreateToken reply: the secret is returned this once.
pub fn created_token_info(token: String, actual_name: String, read_only: bool) -> (r: TokenInfo)
    ensures
        r.name == actual_name,
        r.token == token,
        r.read_only == read_only,
        r.created_at@.len() == 0,
{
    TokenInfo { name: actual_name, token, read_only, created_at: String::new() }
}

/// The ListTokens reply: each token's metadata, never its secret.
pub fn list_tokens_reply(tokens: &Vec<StoredToken>) -> (r: Vec<TokenInfo>)
    ensures
        r.len() == tokens.len(),
        forall|i: int|
            #![trigger r@[i]]
            0 <= i < r.len() ==> r@[i].name == tokens@[i].name && r@[i].token@.len() == 0
                && r@[i].read_only == tokens@[i].read_only && r@[i].created_at
                == tokens@[i].created_at,
{
    let mut out: Vec<TokenInfo> = Vec::new();
    let mut i: usize = 0;
    while i < tokens.len()
        invariant
            0 <= i <= tokens.len(),
            out.len() == i,
            forall|k: int|
                #![trigger out@[k]]
                0 <= k < i ==> out@[k].name == tokens@[k].name && out@[k].token@.len() == 0
                    && out@[k].read_only == tokens@[k].read_only && out@[k].created_at
                    == tokens@[k].created_at,
        decreases tokens.len() - i,
    {
        let t = &tokens[i];
        out.push(
            TokenInfo {
                name: t.name.clone(),
                token: String::new(),
                read_only: t.read_only,
                created_at: t.created_at.clone(),
            },
        );
        i = i + 1;
    }
    out
}

/// RevokeToken needs a name that is not blank.
pub fn check_revoke_name(name: &str) -> (r: Result<(), String>)
    ensures
        trim(name@).len() > 0 ==> r is Ok,
        trim(name@).len() == 0 ==> r is Err && r->Err_0@ == "RevokeToken: name must not be empty"@,
{
    let n = trimmed(name);
    if n.as_str().unicode_len() == 0 {
        Err("RevokeToken: name must not be empty".to_owned())
    } else {
        Ok(())
    }
}

/// The RevokeToken reply: ok when the store removed the token, else a
/// not-found error naming it.
pub fn revoke_token_reply(removed: bool, name: &str) -> (r: ProtoAck)
    ensures
        r.ok == removed,
        removed ==> r.error@.len() == 0,
        !removed ==> r.error@ == "token '"@ + name@ + "' not found (already revoked or never existed)"@,
        r.info@.len() == 0,
{
    let error = if removed {
        String::new()
    } else {
        let mut m = String::new();
        push_str(&mut m, "token '");
        push_str(&mut m, name);
        push_str(&mut m, "' not found (already revoked or never existed)");
        m
    };
    ProtoAck { ok: removed, error, info: String::new() }
}

} // verus!
