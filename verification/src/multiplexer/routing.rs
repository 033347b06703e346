//! Backend routing: opaque backend-qualified session ids, session-name
//! validation and the per-connection relay routing decisions.
//!
//! Session ids have the wire form `"<backend>:<bare>"`. An unknown or
//! unparseable backend token is an *invalid argument*; a recognised backend
//! that this server is not running is *not found*.

use vstd::prelude::*;

use vstd::string::StrSliceExecFns;

use crate::text::{is_first, push_char, push_str, split_once, split_once_char, str_eq};

verus! {

/// A multiplexer backend this server can drive.
#[derive(Debug, Clone, Copy, PartialEq, Eq, Hash, Structural)]
pub enum BackendKind {
    Zellij,
    Herdr,
}

/// The lowercase wire token of a backend kind.
pub open spec fn kind_token(k: BackendKind) -> Seq<char> {
    match k {
        BackendKind::Zellij => seq!['z', 'e', 'l', 'l', 'i', 'j'],
        BackendKind::Herdr => seq!['h', 'e', 'r', 'd', 'r'],
    }
}

/// The backend kind named by a wire token, if any.
pub open spec fn kind_of_token(s: Seq<char>) -> Option<BackendKind> {
    if s == kind_token(BackendKind::Zellij) {
        Some(BackendKind::Zellij)
    } else if s == kind_token(BackendKind::Herdr) {
        Some(BackendKind::Herdr)
    } else {
        None
    }
}

impl BackendKind {
    /// The lowercase wire token (`"zellij"` / `"herdr"`).
    pub fn token(self) -> (r: &'static str)
        ensures
            r@ == kind_token(self),
    {
        match self {
            BackendKind::Zellij => {
                proof {
                    reveal_strlit("zellij");
                }
                "zellij"
            },
            BackendKind::Herdr => {
                proof {
                    reveal_strlit("herdr");
                }
                "herdr"
            },
        }
    }
}

/// Parse a `<backend>` token into a [`BackendKind`].
pub fn parse_backend_kind(s: &str) -> (r: Option<BackendKind>)
    ensures
        r == kind_of_token(s@),
{
    if str_eq(s, BackendKind::Zellij.token()) {
        Some(BackendKind::Zellij)
    } else if str_eq(s, BackendKind::Herdr.token()) {
        Some(BackendKind::Herdr)
    } else {
        None
    }
}

/// A character allowed in a bare session name: `[A-Za-z0-9_-]`.
pub open spec fn is_name_char(c: char) -> bool {
    ('a' <= c && c <= 'z') || ('A' <= c && c <= 'Z') || ('0' <= c && c <= '9') || c == '_'
        || c == '-'
}

/// A valid bare session name: non-empty and drawn from `[A-Za-z0-9_-]`.
pub open spec fn valid_session_name(s: Seq<char>) -> bool {
    s.len() > 0 && forall|i: int| 0 <= i < s.len() ==> is_name_char(#[trigger] s[i])
}

/// Whether `c` is an allowed bare-name character.
pub fn name_char(c: char) -> (r: bool)
    ensures
        r == is_name_char(c),
{
    ('a' <= c && c <= 'z') || ('A' <= c && c <= 'Z') || ('0' <= c && c <= '9') || c == '_'
        || c == '-'
}

/// The refusal of an invalid bare session name.
pub open spec fn name_error(name: Seq<char>) -> Seq<char> {
    "invalid session name \""@ + name + "\": only [A-Za-z0-9_-] characters are allowed"@
}

/// Validate a bare session name (path-traversal / metacharacter guard): it
/// must be non-empty and drawn from `[A-Za-z0-9_-]`.
pub fn validate_session_name(name: &str) -> (r: Result<(), String>)
    ensures
        r is Ok <==> valid_session_name(name@),
        r is Err ==> r->Err_0@ == name_error(name@),
{
    let n = name.unicode_len();
    let mut ok = n > 0;
    let mut i: usize = 0;
    while i < n
        invariant
            i <= n,
            n == name@.len(),
            ok == (n > 0 && forall|j: int| 0 <= j < i ==> is_name_char(#[trigger] name@[j])),
        decreases n - i,
    {
        if !name_char(name.get_char(i)) {
            ok = false;
        }
        i = i + 1;
    }
    if ok {
        Ok(())
    } else {
        let mut msg = String::new();
        push_str(&mut msg, "invalid session name \"");
        push_str(&mut msg, name);
        push_str(&mut msg, "\": only [A-Za-z0-9_-] characters are allowed");
        proof {
            reveal_strlit("invalid session name \"");
            reveal_strlit("\": only [A-Za-z0-9_-] characters are allowed");
        }
        assert(msg@ =~= name_error(name@));
        Err(msg)
    }
}

/// The session id names the herdr backend (the sessions of that backend
/// collapse onto one shared id, so the connection id is the only per-client
/// discriminator).
pub open spec fn collapsed_session(id: Seq<char>) -> bool {
    match split_once(id, ':') {
        Some((prefix, _)) => prefix == kind_token(BackendKind::Herdr),
        None => false,
    }
}

/// True when `id` names a backend whose sessions collapse to one shared id —
/// currently only herdr (`"herdr:<anything>"`).
pub fn is_collapsed_backend_session(id: &str) -> (r: bool)
    ensures
        r == collapsed_session(id@),
{
    match split_once_char(id, ':') {
        Some((prefix, _)) => str_eq(prefix.as_str(), BackendKind::Herdr.token()),
        None => false,
    }
}

/// The backend-qualified id `"<backend>:<bare>"`.
pub open spec fn session_id(kind: BackendKind, bare: Seq<char>) -> Seq<char> {
    kind_token(kind).push(':') + bare
}

/// Mint an opaque, backend-qualified session id: `"<backend>:<bare>"`.
pub fn make_id(kind: BackendKind, bare: &str) -> (r: String)
    ensures
        r@ == session_id(kind, bare@),
{
    let mut s = String::new();
    push_str(&mut s, kind.token());
    push_char(&mut s, ':');
    push_str(&mut s, bare);
    assert(s@ =~= session_id(kind, bare@));
    s
}

/// Why a session id could not be resolved.
#[derive(Debug, Clone, PartialEq, Eq)]
pub enum RoutingError {
    /// Malformed id: unknown backend token, ambiguous bare name, or a bare
    /// name that fails the session-name guard.
    InvalidArgument(String),
    /// A recognised backend that this server is not running.
    NotFound(String),
}

/// The outcome of resolving a session id against the running backends.
pub enum Resolution {
    Resolved(BackendKind, Seq<char>),
    Invalid,
    Missing,
}

/// How `id` resolves when the backends in `running` are available (the first
/// listed is the primary).
pub open spec fn resolution(running: Seq<BackendKind>, id: Seq<char>) -> Resolution {
    match split_once(id, ':') {
        Some((prefix, bare)) => match kind_of_token(prefix) {
            None => Resolution::Invalid,
            Some(k) => if !running.contains(k) {
                Resolution::Missing
            } else if valid_session_name(bare) {
                Resolution::Resolved(k, bare)
            } else {
                Resolution::Invalid
            },
        },
        None => if running.len() == 1 {
            if valid_session_name(id) {
                Resolution::Resolved(running[0], id)
            } else {
                Resolution::Invalid
            }
        } else {
            Resolution::Invalid
        },
    }
}

/// `prefix`, then `id` in double quotes, then `suffix`.
pub open spec fn quoted(prefix: Seq<char>, id: Seq<char>, suffix: Seq<char>) -> Seq<char> {
    prefix + seq!['"'] + id + seq!['"'] + suffix
}

/// The message of a refused resolution of `id`.
pub open spec fn resolution_error(running: Seq<BackendKind>, id: Seq<char>) -> Seq<char> {
    match split_once(id, ':') {
        Some((prefix, bare)) => match kind_of_token(prefix) {
            None => quoted(
                "session id "@,
                id,
                " names an unknown backend (expected one of: zellij, herdr)"@,
            ),
            Some(k) => if !running.contains(k) {
                quoted(
                    "session id "@,
                    id,
                    " targets a backend that is not running on this server — re-list sessions"@,
                )
            } else {
                name_error(bare)
            },
        },
        None => if running.len() == 1 {
            name_error(id)
        } else {
            quoted(
                "session "@,
                id,
                " is missing a '<backend>:' prefix and this server runs multiple backends — re-list sessions"@,
            )
        },
    }
}

/// The result `r` of a resolver call agrees with `resolution(running, id)`.
pub open spec fn resolves_as(
    r: Result<(BackendKind, String), RoutingError>,
    running: Seq<BackendKind>,
    id: Seq<char>,
) -> bool {
    match resolution(running, id) {
        Resolution::Resolved(k, b) => r matches Ok((k2, b2)) && k2 == k && b2@ == b,
        Resolution::Invalid => r matches Err(RoutingError::InvalidArgument(m)) && m@
            == resolution_error(running, id),
        Resolution::Missing => r matches Err(RoutingError::NotFound(m)) && m@ == resolution_error(
            running,
            id,
        ),
    }
}

/// Whether `kind` is among the running backends.
pub fn kind_running(running: &Vec<BackendKind>, kind: BackendKind) -> (r: bool)
    ensures
        r == running@.contains(kind),
{
    let mut i: usize = 0;
    while i < running.len()
        invariant
            i <= running.len(),
            forall|j: int| 0 <= j < i ==> running@[j] != kind,
        decreases running.len() - i,
    {
        if running[i] == kind {
            assert(running@[i as int] == kind);
            return true;
        }
        i = i + 1;
    }
    false
}

fn quoted_message(prefix: &str, id: &str, suffix: &str) -> (r: String)
    ensures
        r@ == quoted(prefix@, id@, suffix@),
{
    let mut msg = String::new();
    push_str(&mut msg, prefix);
    push_char(&mut msg, '"');
    push_str(&mut msg, id);
    push_char(&mut msg, '"');
    push_str(&mut msg, suffix);
    assert(msg@ =~= quoted(prefix@, id@, suffix@));
    msg
}

/// Resolve an opaque session id to the owning backend kind and the bare
/// session name. An id without `':'` is a legacy bare name, resolvable only
/// when exactly one backend runs. Only the bare name is validated.
pub fn resolve_session_kind(running: &Vec<BackendKind>, id: &str) -> (r: Result<
    (BackendKind, String),
    RoutingError,
>)
    ensures
        resolves_as(r, running@, id@),
{
    match split_once_char(id, ':') {
        Some((prefix, bare)) => {
            match parse_backend_kind(prefix.as_str()) {
                None => Err(
                    RoutingError::InvalidArgument(
                        quoted_message(
                            "session id ",
                            id,
                            " names an unknown backend (expected one of: zellij, herdr)",
                        ),
                    ),
                ),
                Some(kind) => {
                    if !kind_running(running, kind) {
                        return Err(
                            RoutingError::NotFound(
                                quoted_message(
                                    "session id ",
                                    id,
                                    " targets a backend that is not running on this server — re-list sessions",
                                ),
                            ),
                        );
                    }
                    match validate_session_name(bare.as_str()) {
                        Ok(()) => Ok((kind, bare)),
                        Err(e) => Err(RoutingError::InvalidArgument(e)),
                    }
                },
            }
        },
        None => {
            if running.len() == 1 {
                match validate_session_name(id) {
                    Ok(()) => Ok((running[0], id.to_owned())),
                    Err(e) => Err(RoutingError::InvalidArgument(e)),
                }
            } else {
                Err(
                    RoutingError::InvalidArgument(
                        quoted_message(
                            "session ",
                            id,
                            " is missing a '<backend>:' prefix and this server runs multiple backends — re-list sessions",
                        ),
                    ),
                )
            }
        },
    }
}

/// Resolve an opaque session id to its backend and bare name (see
/// [`resolve_session_kind`]).
pub fn resolve_session(running: &Vec<BackendKind>, id: &str) -> (r: Result<
    (BackendKind, String),
    RoutingError,
>)
    ensures
        resolves_as(r, running@, id@),
{
    resolve_session_kind(running, id)
}

proof fn lemma_split_session_id(kind: BackendKind, bare: Seq<char>)
    requires
        valid_session_name(bare),
    ensures
        split_once(session_id(kind, bare), ':') == Some((kind_token(kind), bare)),
{
    let id = session_id(kind, bare);
    let n = kind_token(kind).len() as int;
    assert(is_first(id, ':', n));
    let k = choose|k: int| is_first(id, ':', k);
    crate::text::lemma_first_unique(id, ':', n, k);
    assert(id.subrange(0, n) =~= kind_token(kind));
    assert(id.subrange(n + 1, id.len() as int) =~= bare);
}

/// A minted id resolves back to the backend and bare name it was minted
/// from, whenever that backend is running and the bare name is valid.
pub proof fn law_make_id_round_trips(running: Seq<BackendKind>, kind: BackendKind, bare: Seq<char>)
    requires
        running.contains(kind),
        valid_session_name(bare),
    ensures
        resolution(running, session_id(kind, bare)) == Resolution::Resolved(kind, bare),
{
    lemma_split_session_id(kind, bare);
}

/// A minted id is collapsed exactly when it was minted for herdr.
pub proof fn law_collapsed_iff_herdr(kind: BackendKind, bare: Seq<char>)
    requires
        valid_session_name(bare),
    ensures
        collapsed_session(session_id(kind, bare)) == (kind == BackendKind::Herdr),
{
    lemma_split_session_id(kind, bare);
}

} // verus!
