//! Cross-cutting helpers of the gRPC handlers: per-connection relay routing,
//! the read-only gate, layout-name validation and proto conversions.

use vstd::prelude::*;
use vstd::string::StrSliceExecFns;

use crate::multiplexer::routing::{collapsed_session, is_collapsed_backend_session, BackendKind};
use crate::multiplexer::types::{ActionAck, PaneRef};
use crate::text::push_str;

verus! {

/// The proto `ActionAck`: empty strings stand for "no error" / "no info".
#[derive(Debug, Clone, PartialEq, Eq)]
pub struct ProtoAck {
    pub ok: bool,
    pub error: String,
    pub info: String,
}

/// The proto `PaneTarget` (`pane_id` + plugin flag).
#[derive(Debug, Clone, Copy, PartialEq, Eq, Structural)]
pub struct PaneTarget {
    pub pane_id: u32,
    pub is_plugin: bool,
}

/// The proto `Backend` tag.
#[derive(Debug, Clone, Copy, PartialEq, Eq, Structural)]
pub enum ProtoBackend {
    Unspecified,
    Zellij,
    Herdr,
}

/// One live relay attached through this server, as the control registry
/// records it: its connection id (the registry key), the session it renders
/// and whether its token is read-only.
#[derive(Debug, Clone, PartialEq, Eq)]
pub struct ControlEntry {
    pub connection_id: String,
    pub session: String,
    pub read_only: bool,
}

/// Build the neutral [`PaneRef`] from a proto [`PaneTarget`].
pub fn pane_ref(target: &PaneTarget) -> (r: PaneRef)
    ensures
        r.id == target.pane_id,
        r.is_plugin == target.is_plugin,
{
    PaneRef { id: target.pane_id, is_plugin: target.is_plugin }
}

/// The proto tag of a backend kind.
pub open spec fn proto_of(kind: BackendKind) -> ProtoBackend {
    match kind {
        BackendKind::Zellij => ProtoBackend::Zellij,
        BackendKind::Herdr => ProtoBackend::Herdr,
    }
}

/// The backend kind of a proto tag (`None` for `Unspecified`).
pub open spec fn kind_of_proto(backend: ProtoBackend) -> Option<BackendKind> {
    match backend {
        ProtoBackend::Zellij => Some(BackendKind::Zellij),
        ProtoBackend::Herdr => Some(BackendKind::Herdr),
        ProtoBackend::Unspecified => None,
    }
}

/// Map a [`BackendKind`] to its proto tag.
pub fn proto_backend(kind: BackendKind) -> (r: ProtoBackend)
    ensures
        r == proto_of(kind),
{
    match kind {
        BackendKind::Zellij => ProtoBackend::Zellij,
        BackendKind::Herdr => ProtoBackend::Herdr,
    }
}

/// Map a proto tag to a [`BackendKind`]; `None` for `Unspecified`.
pub fn kind_from_proto(backend: ProtoBackend) -> (r: Option<BackendKind>)
    ensures
        r == kind_of_proto(backend),
{
    match backend {
        ProtoBackend::Zellij => Some(BackendKind::Zellij),
        ProtoBackend::Herdr => Some(BackendKind::Herdr),
        ProtoBackend::Unspecified => None,
    }
}

/// `kind_from_proto` inverts `proto_backend`, and only `Unspecified` has no
/// backend kind.
pub proof fn law_kind_from_proto_inverts(kind: BackendKind, backend: ProtoBackend)
    ensures
        kind_of_proto(proto_of(kind)) == Some(kind),
        kind_of_proto(backend) is None <==> backend == ProtoBackend::Unspecified,
{
}

/// Convert a neutral [`ActionAck`] into the proto ack (absent strings become
/// empty).
pub fn ack_to_proto(ack: ActionAck) -> (r: ProtoAck)
    ensures
        r.ok == ack.ok,
        r.error@ == (match ack.error {
            Some(e) => e@,
            None => Seq::<char>::empty(),
        }),
        r.info@ == (match ack.info {
            Some(i) => i@,
            None => Seq::<char>::empty(),
        }),
{
    ProtoAck {
        ok: ack.ok,
        error: match ack.error {
            Some(e) => e,
            None => String::new(),
        },
        info: match ack.info {
            Some(i) => i,
            None => String::new(),
        },
    }
}

/// Why a mutating request was refused by the read-only gate.
#[derive(Debug, Clone, Copy, PartialEq, Eq, Structural)]
pub enum ReadOnlyDenial {
    /// The session token is read-only.
    ReadOnlyToken,
    /// The read-only flag was never set on the request (fail closed).
    FlagMissing,
}

impl ReadOnlyDenial {
    /// The text of the permission-denied refusal.
    pub open spec fn text(self) -> Seq<char> {
        match self {
            ReadOnlyDenial::ReadOnlyToken =>
                "session token is read-only — mutating operations are not allowed"@,
            ReadOnlyDenial::FlagMissing =>
                "internal auth error: read-only flag not set — request denied (fail-closed)"@,
        }
    }

    /// The text of the permission-denied refusal.
    pub fn message(&self) -> (r: String)
        ensures
            r@ == self.text(),
    {
        match self {
            ReadOnlyDenial::ReadOnlyToken => {
                proof {
                    reveal_strlit("session token is read-only — mutating operations are not allowed");
                }
                "session token is read-only — mutating operations are not allowed".to_owned()
            },
            ReadOnlyDenial::FlagMissing => {
                proof {
                    reveal_strlit(
                        "internal auth error: read-only flag not set — request denied (fail-closed)",
                    );
                }
                "internal auth error: read-only flag not set — request denied (fail-closed)".to_owned()
            },
        }
    }
}

/// The read-only gate of every mutating RPC. `read_only` is the flag the auth
/// layer stashed on the request (`None` when absent, which is denied).
pub fn reject_if_read_only(read_only: Option<bool>) -> (r: Result<(), ReadOnlyDenial>)
    ensures
        r == (match read_only {
            Some(true) => Err(ReadOnlyDenial::ReadOnlyToken),
            Some(false) => Ok(()),
            None => Err(ReadOnlyDenial::FlagMissing),
        }),
{
    match read_only {
        Some(true) => Err(ReadOnlyDenial::ReadOnlyToken),
        Some(false) => Ok(()),
        None => Err(ReadOnlyDenial::FlagMissing),
    }
}

/// A valid bare layout name: non-empty, drawn from `[A-Za-z0-9_-]`.
pub open spec fn valid_layout_name(s: Seq<char>) -> bool {
    crate::multiplexer::routing::valid_session_name(s)
}

/// `format!("{:?}", s)` of a string slice: `s` in double quotes with
/// `str::escape_debug` escapes.
pub uninterp spec fn std_debug_str(s: Seq<char>) -> Seq<char>;

/// The `Debug` rendering of a string slice (`format!("{s:?}")`).
#[verifier::external_body]
fn debug_str(s: &str) -> (r: String)
    ensures
        r@ == std_debug_str(s@),
{
    format!("{s:?}")
}

/// The refusal of an invalid `CreateSession` layout value.
pub open spec fn layout_error(layout: Seq<char>) -> Seq<char> {
    "invalid layout "@ + std_debug_str(layout)
        + ": only a bare layout name [A-Za-z0-9_-] is allowed (absolute paths, '/', and '..' are rejected)"@
}

/// Validate a `CreateSession --layout` value: only a bare name drawn from
/// `[A-Za-z0-9_-]` (no path, no `/`, no `..`) is accepted.
pub fn validate_layout_name(layout: &str) -> (r: Result<(), String>)
    ensures
        r is Ok <==> valid_layout_name(layout@),
        r is Err ==> r->Err_0@ == layout_error(layout@),
{
    match crate::multiplexer::routing::validate_session_name(layout) {
        Ok(()) => Ok(()),
        Err(_) => {
            let mut msg = String::new();
            push_str(&mut msg, "invalid layout ");
            let quoted = debug_str(layout);
            push_str(&mut msg, quoted.as_str());
            push_str(
                &mut msg,
                ": only a bare layout name [A-Za-z0-9_-] is allowed (absolute paths, '/', and '..' are rejected)",
            );
            Err(msg)
        },
    }
}

/// `i` is the first registry entry keyed by `connection_id`.
pub open spec fn is_key_at(entries: Seq<ControlEntry>, connection_id: Seq<char>, i: int) -> bool {
    &&& 0 <= i < entries.len()
    &&& entries[i].connection_id@ == connection_id
    &&& forall|j: int| 0 <= j < i ==> entries[j].connection_id@ != connection_id
}

/// The registry entry keyed by `connection_id`, if any.
pub open spec fn entry_for(entries: Seq<ControlEntry>, connection_id: Seq<char>) -> Option<int> {
    if exists|i: int| is_key_at(entries, connection_id, i) {
        Some(choose|i: int| is_key_at(entries, connection_id, i))
    } else {
        None
    }
}

/// No two registry entries share a connection id (the registry is a map
/// keyed by connection id).
pub open spec fn keys_unique(entries: Seq<ControlEntry>) -> bool {
    forall|i: int, j: int|
        0 <= i < entries.len() && 0 <= j < entries.len() && i != j ==> #[trigger] entries[i].connection_id@
            != #[trigger] entries[j].connection_id@
}

/// In a registry whose keys are unique, looking a connection id up finds
/// the one entry that holds it, wherever it stands.
pub proof fn law_unique_key_lookup(entries: Seq<ControlEntry>, connection_id: Seq<char>, i: int)
    requires
        keys_unique(entries),
        0 <= i < entries.len(),
        entries[i].connection_id@ == connection_id,
    ensures
        entry_for(entries, connection_id) == Some(i),
{
    assert forall|j: int| 0 <= j < i implies entries[j].connection_id@ != connection_id by {
        assert(entries[j].connection_id@ != entries[i].connection_id@);
    }
    assert(is_key_at(entries, connection_id, i));
    let k = choose|k: int| is_key_at(entries, connection_id, k);
    if k != i {
        assert(entries[k].connection_id@ != entries[i].connection_id@);
    }
}

/// `i` is the first entry attached to `session` (optionally: writable only).
pub open spec fn is_session_at(
    entries: Seq<ControlEntry>,
    session: Seq<char>,
    writable_only: bool,
    i: int,
) -> bool {
    &&& 0 <= i < entries.len()
    &&& entries[i].session@ == session
    &&& (writable_only ==> !entries[i].read_only)
    &&& forall|j: int|
        0 <= j < i ==> !(entries[j].session@ == session && (writable_only
            ==> !entries[j].read_only))
}

/// The first entry attached to `session` (optionally: writable only).
pub open spec fn session_entry(entries: Seq<ControlEntry>, session: Seq<char>, writable_only: bool) -> Option<
    int,
> {
    if exists|i: int| is_session_at(entries, session, writable_only, i) {
        Some(choose|i: int| is_session_at(entries, session, writable_only, i))
    } else {
        None
    }
}

/// The exact per-connection match: the entry keyed by a non-empty
/// `connection_id` whose session is `session`.
pub open spec fn exact_match(
    entries: Seq<ControlEntry>,
    session: Seq<char>,
    connection_id: Seq<char>,
) -> Option<int> {
    if connection_id.len() == 0 {
        None
    } else {
        match entry_for(entries, connection_id) {
            Some(i) => if entries[i].session@ == session {
                Some(i)
            } else {
                None
            },
            None => None,
        }
    }
}

fn find_key(entries: &Vec<ControlEntry>, connection_id: &str) -> (r: Option<usize>)
    ensures
        match r {
            Some(i) => entry_for(entries@, connection_id@) == Some(i as int),
            None => entry_for(entries@, connection_id@) is None,
        },
{
    let key = connection_id.to_owned();
    let mut i: usize = 0;
    while i < entries.len()
        invariant
            i <= entries.len(),
            key@ == connection_id@,
            forall|j: int| 0 <= j < i ==> entries@[j].connection_id@ != connection_id@,
        decreases entries.len() - i,
    {
        if entries[i].connection_id == key {
            proof {
                assert(is_key_at(entries@, connection_id@, i as int));
                let k = choose|k: int| is_key_at(entries@, connection_id@, k);
                if k < i {
                } else if i < k {
                    assert(entries@[i as int].connection_id@ != connection_id@);
                }
            }
            return Some(i);
        }
        i = i + 1;
    }
    None
}

fn find_session(entries: &Vec<ControlEntry>, session: &str, writable_only: bool) -> (r: Option<
    usize,
>)
    ensures
        match r {
            Some(i) => session_entry(entries@, session@, writable_only) == Some(i as int),
            None => session_entry(entries@, session@, writable_only) is None,
        },
{
    let key = session.to_owned();
    let mut i: usize = 0;
    while i < entries.len()
        invariant
            i <= entries.len(),
            key@ == session@,
            forall|j: int|
                0 <= j < i ==> !(entries@[j].session@ == session@ && (writable_only
                    ==> !entries@[j].read_only)),
        decreases entries.len() - i,
    {
        if entries[i].session == key && (!writable_only || !entries[i].read_only) {
            proof {
                assert(is_session_at(entries@, session@, writable_only, i as int));
                let k = choose|k: int| is_session_at(entries@, session@, writable_only, k);
                if i < k {
                    assert(!(entries@[i as int].session@ == session@ && (writable_only
                        ==> !entries@[i as int].read_only)));
                }
            }
            return Some(i);
        }
        i = i + 1;
    }
    None
}

/// The entry of the exact per-connection match, if any.
pub fn exact_relay(entries: &Vec<ControlEntry>, session: &str, connection_id: &str) -> (r: Option<
    usize,
>)
    ensures
        match r {
            Some(i) => exact_match(entries@, session@, connection_id@) == Some(i as int),
            None => exact_match(entries@, session@, connection_id@) is None,
        },
{
    if connection_id.unicode_len() == 0 {
        return None;
    }
    match find_key(entries, connection_id) {
        Some(i) => {
            if entries[i].session == session.to_owned() {
                Some(i)
            } else {
                None
            }
        },
        None => None,
    }
}

/// Where a control command for `session` is to be delivered.
#[derive(Debug, Clone, Copy, PartialEq, Eq, Structural)]
pub enum RouteDecision {
    /// The caller's own relay (exact connection-id match).
    Exact(usize),
    /// A writable relay attached to the same session (non-collapsed only).
    Fallback(usize),
    /// A collapsed session with no exact match: refuse.
    FailClosed,
    /// No relay: the caller uses the ephemeral path.
    Unrouted,
}

/// The routing rule for relay control commands.
pub open spec fn route_rule(
    entries: Seq<ControlEntry>,
    session: Seq<char>,
    connection_id: Seq<char>,
) -> RouteDecision {
    match exact_match(entries, session, connection_id) {
        Some(i) => RouteDecision::Exact(i as usize),
        None => if collapsed_session(session) {
            RouteDecision::FailClosed
        } else {
            match session_entry(entries, session, true) {
                Some(i) => RouteDecision::Fallback(i as usize),
                None => RouteDecision::Unrouted,
            }
        },
    }
}

/// On a collapsed (herdr) session a control command reaches only the
/// caller's own relay: it is never delivered to another relay by the
/// session-scoped fallback.
pub proof fn law_collapsed_session_never_falls_back(
    entries: Seq<ControlEntry>,
    session: Seq<char>,
    connection_id: Seq<char>,
)
    requires
        collapsed_session(session),
        entries.len() <= usize::MAX,
    ensures
        !(route_rule(entries, session, connection_id) is Fallback),
        route_rule(entries, session, connection_id) matches RouteDecision::Exact(i) ==> {
            &&& connection_id.len() > 0
            &&& entries[i as int].connection_id@ == connection_id
            &&& entries[i as int].session@ == session
        },
{
    if let Some(i) = exact_match(entries, session, connection_id) {
        let k = choose|k: int| is_key_at(entries, connection_id, k);
        assert(is_key_at(entries, connection_id, k));
    }
}

/// Routing targets a relay of the requested session, and the session-scoped
/// fallback never selects a read-only relay.
pub proof fn law_routes_stay_in_session(
    entries: Seq<ControlEntry>,
    session: Seq<char>,
    connection_id: Seq<char>,
)
    requires
        entries.len() <= usize::MAX,
    ensures
        route_rule(entries, session, connection_id) matches RouteDecision::Exact(i) ==> (0 <= i
            < entries.len() && entries[i as int].session@ == session),
        route_rule(entries, session, connection_id) matches RouteDecision::Fallback(i) ==> (0 <= i
            < entries.len() && entries[i as int].session@ == session
            && !entries[i as int].read_only),
{
    if let Some(i) = exact_match(entries, session, connection_id) {
        let k = choose|k: int| is_key_at(entries, connection_id, k);
        assert(is_key_at(entries, connection_id, k));
    }
    if let Some(i) = session_entry(entries, session, true) {
        let k = choose|k: int| is_session_at(entries, session, true, k);
        assert(is_session_at(entries, session, true, k));
    }
}

/// Choose the relay a control command is routed to: an exact connection-id
/// match first; for a collapsed (herdr) session nothing else (fail closed);
/// otherwise the first writable relay on the same session.
pub fn route_control(entries: &Vec<ControlEntry>, session: &str, connection_id: &str) -> (r:
    RouteDecision)
    ensures
        r == route_rule(entries@, session@, connection_id@),
{
    match exact_relay(entries, session, connection_id) {
        Some(i) => RouteDecision::Exact(i),
        None => {
            if is_collapsed_backend_session(session) {
                RouteDecision::FailClosed
            } else {
                match find_session(entries, session, true) {
                    Some(i) => RouteDecision::Fallback(i),
                    None => RouteDecision::Unrouted,
                }
            }
        },
    }
}

/// The reply to a routed control command, given the routing decision and
/// whether queuing the command on the chosen relay succeeded. `None` tells
/// the caller to fall back to the ephemeral path.
pub fn route_reply(collapsed: bool, decision: RouteDecision, sent: bool) -> (r: Option<ProtoAck>)
    ensures
        collapsed ==> r is Some,
        collapsed ==> (r->0.ok <==> (decision is Exact && sent)),
        collapsed && !(decision is Exact && sent) ==> r->0.error@
            == "reattach required (no matching connection)"@,
        !collapsed ==> (r is Some <==> ((decision is Exact || decision is Fallback) && sent)),
        !collapsed && r is Some ==> r->0.ok,
        r is Some && r->0.ok ==> r->0.error@.len() == 0,
        r is Some && r->0.ok ==> r->0.info@ == (if decision is Fallback && !collapsed {
            "routed via relay client (session fallback, writable)"@
        } else {
            "routed via relay client (per-connection)"@
        }),
        r is Some && !r->0.ok ==> r->0.info@.len() == 0,
{
    if collapsed {
        if matches!(decision, RouteDecision::Exact(_)) && sent {
            Some(ProtoAck {
                ok: true,
                error: String::new(),
                info: "routed via relay client (per-connection)".to_owned(),
            })
        } else {
            Some(ProtoAck {
                ok: false,
                error: "reattach required (no matching connection)".to_owned(),
                info: String::new(),
            })
        }
    } else {
        match decision {
            RouteDecision::Exact(_) => {
                if sent {
                    Some(ProtoAck {
                        ok: true,
                        error: String::new(),
                        info: "routed via relay client (per-connection)".to_owned(),
                    })
                } else {
                    None
                }
            },
            RouteDecision::Fallback(_) => {
                if sent {
                    Some(ProtoAck {
                        ok: true,
                        error: String::new(),
                        info: "routed via relay client (session fallback, writable)".to_owned(),
                    })
                } else {
                    None
                }
            },
            _ => None,
        }
    }
}

/// The relay that serves a layout query: the exact per-connection match,
/// else the first relay attached to the session (read-only ones included).
pub open spec fn layout_relay_rule(
    entries: Seq<ControlEntry>,
    session: Seq<char>,
    connection_id: Seq<char>,
) -> Option<int> {
    match exact_match(entries, session, connection_id) {
        Some(i) => Some(i),
        None => session_entry(entries, session, false),
    }
}

/// Choose the relay that serves a layout query (see [`layout_relay_rule`]).
pub fn select_layout_relay(entries: &Vec<ControlEntry>, session: &str, connection_id: &str) -> (r:
    Option<usize>)
    ensures
        match r {
            Some(i) => layout_relay_rule(entries@, session@, connection_id@) == Some(i as int),
            None => layout_relay_rule(entries@, session@, connection_id@) is None,
        },
{
    match exact_relay(entries, session, connection_id) {
        Some(i) => Some(i),
        None => find_session(entries, session, false),
    }
}

/// The relay a space switch is routed to: an exact connection-id match only
/// (fail closed, never another connection's relay).
pub fn resolve_space_relay(entries: &Vec<ControlEntry>, session: &str, connection_id: &str) -> (r:
    Option<usize>)
    ensures
        match r {
            Some(i) => exact_match(entries@, session@, connection_id@) == Some(i as int),
            None => exact_match(entries@, session@, connection_id@) is None,
        },
{
    exact_relay(entries, session, connection_id)
}

} // verus!
