//! Spaces (herdr workspaces): input validation, the per-connection active
//! space, the last-space guard of CloseSpace and the replies of the
//! relay-routed SwitchSpace.

use vstd::prelude::*;
use vstd::string::StrSliceExecFns;
use vstd::utf8::encode_utf8;

use crate::grpc::helpers::{ack_to_proto, ProtoAck};
use crate::grpc::layout::{find_view_state, is_state_at, state_index, ViewStateEntry};
use crate::multiplexer::types::{ActionAck, SpaceSnapshot};
use crate::text::str_eq;

verus! {

/// Max length (bytes) accepted for a user-supplied space label.
pub const MAX_SPACE_LABEL_LEN: usize = 64;

/// Max length (bytes) accepted for an opaque space (herdr workspace) id.
pub const MAX_SPACE_ID_LEN: usize = 128;

/// The proto `Space`.
#[derive(Debug, Clone, PartialEq, Eq)]
pub struct Space {
    pub id: String,
    pub name: String,
    pub active: bool,
}

/// True when closing one more space would leave the daemon with zero
/// workspaces (`count` is the number present before the close).
pub fn would_close_last_space(count: usize) -> (r: bool)
    ensures
        r == (count <= 1),
{
    count <= 1
}

/// An ASCII letter or digit.
pub open spec fn is_ascii_alnum(c: char) -> bool {
    ('a' <= c && c <= 'z') || ('A' <= c && c <= 'Z') || ('0' <= c && c <= '9')
}

/// A character allowed in a space label: `[A-Za-z0-9]`, space, `_`, `-`, `.`.
pub open spec fn is_label_char(c: char) -> bool {
    is_ascii_alnum(c) || c == ' ' || c == '_' || c == '-' || c == '.'
}

/// A character allowed in a space id: `[A-Za-z0-9_-.:]`.
pub open spec fn is_space_id_char(c: char) -> bool {
    is_ascii_alnum(c) || c == '_' || c == '-' || c == '.' || c == ':'
}

/// Why a space label or id was refused.
#[derive(Debug, Clone, Copy, PartialEq, Eq, Structural)]
pub enum SpaceInputError {
    Empty,
    TooLong,
    BadCharset,
}

/// The length in bytes of the UTF-8 encoding of `s`, as `str::len` reports it.
pub open spec fn byte_len(s: Seq<char>) -> usize {
    encode_utf8(s).len() as usize
}

/// The verdict on a space label (UTF-8 length in bytes, then charset).
pub open spec fn label_verdict(s: Seq<char>) -> Result<(), SpaceInputError> {
    if s.len() == 0 {
        Err(SpaceInputError::Empty)
    } else if byte_len(s) > MAX_SPACE_LABEL_LEN {
        Err(SpaceInputError::TooLong)
    } else if forall|i: int| 0 <= i < s.len() ==> is_label_char(#[trigger] s[i]) {
        Ok(())
    } else {
        Err(SpaceInputError::BadCharset)
    }
}

/// The verdict on a space id (UTF-8 length in bytes, then charset).
pub open spec fn space_id_verdict(s: Seq<char>) -> Result<(), SpaceInputError> {
    if s.len() == 0 {
        Err(SpaceInputError::Empty)
    } else if byte_len(s) > MAX_SPACE_ID_LEN {
        Err(SpaceInputError::TooLong)
    } else if forall|i: int| 0 <= i < s.len() ==> is_space_id_char(#[trigger] s[i]) {
        Ok(())
    } else {
        Err(SpaceInputError::BadCharset)
    }
}

fn label_char(c: char) -> (r: bool)
    ensures
        r == is_label_char(c),
{
    ('a' <= c && c <= 'z') || ('A' <= c && c <= 'Z') || ('0' <= c && c <= '9') || c == ' ' || c
        == '_' || c == '-' || c == '.'
}

fn space_id_char(c: char) -> (r: bool)
    ensures
        r == is_space_id_char(c),
{
    ('a' <= c && c <= 'z') || ('A' <= c && c <= 'Z') || ('0' <= c && c <= '9') || c == '_' || c
        == '-' || c == '.' || c == ':'
}

/// Check a space label, yielding the kind of refusal.
pub fn check_space_label(label: &str) -> (r: Result<(), SpaceInputError>)
    ensures
        r == label_verdict(label@),
{
    let n = label.unicode_len();
    if n == 0 {
        return Err(SpaceInputError::Empty);
    }
    if label.len() > MAX_SPACE_LABEL_LEN {
        return Err(SpaceInputError::TooLong);
    }
    let mut i: usize = 0;
    while i < n
        invariant
            i <= n,
            n == label@.len(),
            byte_len(label@) <= MAX_SPACE_LABEL_LEN,
            forall|j: int| 0 <= j < i ==> is_label_char(#[trigger] label@[j]),
        decreases n - i,
    {
        if !label_char(label.get_char(i)) {
            return Err(SpaceInputError::BadCharset);
        }
        i = i + 1;
    }
    Ok(())
}

/// Check a space id, yielding the kind of refusal.
pub fn check_space_id(space_id: &str) -> (r: Result<(), SpaceInputError>)
    ensures
        r == space_id_verdict(space_id@),
{
    let n = space_id.unicode_len();
    if n == 0 {
        return Err(SpaceInputError::Empty);
    }
    if space_id.len() > MAX_SPACE_ID_LEN {
        return Err(SpaceInputError::TooLong);
    }
    let mut i: usize = 0;
    while i < n
        invariant
            i <= n,
            n == space_id@.len(),
            byte_len(space_id@) <= MAX_SPACE_ID_LEN,
            forall|j: int| 0 <= j < i ==> is_space_id_char(#[trigger] space_id@[j]),
        decreases n - i,
    {
        if !space_id_char(space_id.get_char(i)) {
            return Err(SpaceInputError::BadCharset);
        }
        i = i + 1;
    }
    Ok(())
}

/// The client-facing message of a refused space label.
pub open spec fn label_error_message(e: SpaceInputError) -> Seq<char> {
    match e {
        SpaceInputError::Empty => "space label must not be empty"@,
        SpaceInputError::TooLong => "space label too long (max 64 bytes)"@,
        SpaceInputError::BadCharset =>
            "invalid space label: only [A-Za-z0-9], space, and the characters _-. are allowed"@,
    }
}

/// The client-facing message of a refused space id.
pub open spec fn space_id_error_message(e: SpaceInputError) -> Seq<char> {
    match e {
        SpaceInputError::Empty => "space_id must not be empty"@,
        SpaceInputError::TooLong => "space_id too long (max 128 bytes)"@,
        SpaceInputError::BadCharset => "invalid space_id: only [A-Za-z0-9_-.:] characters are allowed"@,
    }
}

/// Validate a user-supplied space label before it is forwarded to herdr: it
/// must be non-empty, at most 64 bytes, drawn from `[A-Za-z0-9]`, space and
/// `_-.`. The error is the invalid-argument message.
pub fn validate_space_label(label: &str) -> (r: Result<(), String>)
    ensures
        match label_verdict(label@) {
            Ok(()) => r is Ok,
            Err(e) => r is Err && r->Err_0@ == label_error_message(e),
        },
{
    match check_space_label(label) {
        Ok(()) => Ok(()),
        Err(e) => {
            let msg = match e {
                SpaceInputError::Empty => "space label must not be empty",
                SpaceInputError::TooLong => "space label too long (max 64 bytes)",
                SpaceInputError::BadCharset =>
                    "invalid space label: only [A-Za-z0-9], space, and the characters _-. are allowed",
            };
            Err(msg.to_owned())
        },
    }
}

/// Validate an opaque space id before it is forwarded to herdr: non-empty,
/// at most 128 bytes, drawn from `[A-Za-z0-9_-.:]`.
pub fn validate_space_id(space_id: &str) -> (r: Result<(), String>)
    ensures
        match space_id_verdict(space_id@) {
            Ok(()) => r is Ok,
            Err(e) => r is Err && r->Err_0@ == space_id_error_message(e),
        },
{
    match check_space_id(space_id) {
        Ok(()) => Ok(()),
        Err(e) => {
            let msg = match e {
                SpaceInputError::Empty => "space_id must not be empty",
                SpaceInputError::TooLong => "space_id too long (max 128 bytes)",
                SpaceInputError::BadCharset =>
                    "invalid space_id: only [A-Za-z0-9_-.:] characters are allowed",
            };
            Err(msg.to_owned())
        },
    }
}

/// The label handed to the backend by CreateSpace: an empty label asks the
/// backend to pick a name (`None`); any other label must validate.
pub fn create_space_label(label: &str) -> (r: Result<Option<String>, String>)
    ensures
        label@.len() == 0 ==> r == Ok::<Option<String>, String>(None),
        label@.len() > 0 ==> match label_verdict(label@) {
            Ok(()) => r is Ok && r->Ok_0 is Some && r->Ok_0->0@ == label@,
            Err(e) => r is Err && r->Err_0@ == label_error_message(e),
        },
{
    if label.unicode_len() == 0 {
        return Ok(None);
    }
    match validate_space_label(label) {
        Ok(()) => Ok(Some(label.to_owned())),
        Err(m) => Err(m),
    }
}

/// The checks of RenameSpace, in order: the space id, then the new label.
pub fn check_rename_space(space_id: &str, label: &str) -> (r: Result<(), String>)
    ensures
        match space_id_verdict(space_id@) {
            Err(e) => r is Err && r->Err_0@ == space_id_error_message(e),
            Ok(()) => match label_verdict(label@) {
                Ok(()) => r is Ok,
                Err(e) => r is Err && r->Err_0@ == label_error_message(e),
            },
        },
{
    match validate_space_id(space_id) {
        Err(m) => Err(m),
        Ok(()) => validate_space_label(label),
    }
}

/// The space a connection's relay currently views: read only through an
/// exact, non-empty connection id whose entry is attached to `session`
/// (never a sibling connection's view).
pub open spec fn current_space_of(
    states: Seq<ViewStateEntry>,
    session: Seq<char>,
    connection_id: Seq<char>,
) -> Option<String> {
    if connection_id.len() == 0 {
        None
    } else {
        match state_index(states, connection_id) {
            Some(i) => if states[i].session@ == session {
                states[i].state.current_space
            } else {
                None
            },
            None => None,
        }
    }
}

/// Look up the space the caller's own relay views (see [`current_space_of`]).
pub fn connection_current_space(
    states: &Vec<ViewStateEntry>,
    session: &str,
    connection_id: &str,
) -> (r: Option<String>)
    ensures
        r == current_space_of(states@, session@, connection_id@),
{
    if connection_id.unicode_len() == 0 {
        return None;
    }
    match find_view_state(states, connection_id) {
        Some(i) => {
            if str_eq(states[i].session.as_str(), session) {
                match &states[i].state.current_space {
                    Some(s) => Some(s.clone()),
                    None => None,
                }
            } else {
                None
            }
        },
        None => None,
    }
}

/// A space's reported active flag: the relay's current space when known,
/// else the backend-reported value.
pub open spec fn space_active(s: SpaceSnapshot, relay_space: Option<String>) -> bool {
    match relay_space {
        Some(ws) => s.id@ == ws@,
        None => s.active,
    }
}

/// Map backend spaces to proto spaces, marking the connection-active one.
pub fn spaces_to_proto(snapshots: Vec<SpaceSnapshot>, relay_space: &Option<String>) -> (r: Vec<
    Space,
>)
    ensures
        r.len() == snapshots.len(),
        forall|i: int|
            #![trigger r@[i]]
            0 <= i < r.len() ==> r@[i].id == snapshots@[i].id && r@[i].name == snapshots@[i].name
                && r@[i].active == space_active(snapshots@[i], *relay_space),
{
    let mut out: Vec<Space> = Vec::new();
    let mut i: usize = 0;
    while i < snapshots.len()
        invariant
            0 <= i <= snapshots.len(),
            out.len() == i,
            forall|k: int|
                #![trigger out@[k]]
                0 <= k < i ==> out@[k].id == snapshots@[k].id && out@[k].name == snapshots@[k].name
                    && out@[k].active == space_active(snapshots@[k], *relay_space),
        decreases snapshots.len() - i,
    {
        let s = &snapshots[i];
        let active = match relay_space {
            Some(ws) => str_eq(s.id.as_str(), ws.as_str()),
            None => s.active,
        };
        out.push(Space { id: s.id.clone(), name: s.name.clone(), active });
        i = i + 1;
    }
    out
}

/// The space a caller's relay is re-pointed onto after its space was closed:
/// the first backend-active space, else the first space.
pub open spec fn repoint_index(spaces: Seq<SpaceSnapshot>) -> Option<int> {
    if exists|i: int| 0 <= i < spaces.len() && spaces[i].active {
        Some(
            choose|i: int|
                0 <= i < spaces.len() && spaces[i].active && forall|j: int|
                    0 <= j < i ==> !spaces[j].active,
        )
    } else if spaces.len() > 0 {
        Some(0)
    } else {
        None
    }
}

/// After its space closes, a caller is re-pointed onto the first space the
/// backend reports active; when none is active, onto the first space; and
/// nowhere when there are no spaces.
pub proof fn law_repoint_onto_first_active(spaces: Seq<SpaceSnapshot>, i: int)
    ensures
        0 <= i < spaces.len() && spaces[i].active && (forall|j: int|
            0 <= j < i ==> !(#[trigger] spaces[j]).active) ==> repoint_index(spaces) == Some(i),
        spaces.len() > 0 && (forall|j: int| 0 <= j < spaces.len() ==> !(#[trigger] spaces[j]).active)
            ==> repoint_index(spaces) == Some(0int),
        spaces.len() == 0 ==> repoint_index(spaces) is None,
{
    if 0 <= i < spaces.len() && spaces[i].active && (forall|j: int|
        0 <= j < i ==> !(#[trigger] spaces[j]).active) {
        let c = choose|c: int|
            0 <= c < spaces.len() && spaces[c].active && forall|j: int| 0 <= j < c ==> !spaces[j].active;
        assert(0 <= i < spaces.len() && spaces[i].active && forall|j: int| 0 <= j < i ==> !spaces[j].active);
        if c < i {
            assert(!spaces[c].active);
        } else if c > i {
            assert(!spaces[i].active);
        }
    }
}

/// A listed space is reported active exactly when it is the space the
/// caller's relay views, if that is known; otherwise as the backend says.
pub proof fn law_space_active(s: SpaceSnapshot, relay_space: Option<String>)
    ensures
        relay_space matches Some(ws) ==> (space_active(s, relay_space) <==> s.id@ == ws@),
        relay_space is None ==> space_active(s, relay_space) == s.active,
{
}

/// A connection's current space is only ever read from its own relay's
/// view: it is known only for a non-empty connection id whose first
/// recorded view state belongs to the same session, and it is that state's
/// current space.
pub proof fn law_current_space_is_own(
    states: Seq<ViewStateEntry>,
    session: Seq<char>,
    connection_id: Seq<char>,
    i: int,
)
    requires
        0 <= i < states.len(),
        states[i].connection_id@ == connection_id,
        forall|j: int| 0 <= j < i ==> (#[trigger] states[j]).connection_id@ != connection_id,
    ensures
        connection_id.len() == 0 ==> current_space_of(states, session, connection_id) is None,
        connection_id.len() > 0 && states[i].session@ == session ==> current_space_of(
            states,
            session,
            connection_id,
        ) == states[i].state.current_space,
        states[i].session@ != session ==> current_space_of(states, session, connection_id) is None,
{
    assert(is_state_at(states, connection_id, i));
    let c = choose|c: int| is_state_at(states, connection_id, c);
    if c < i {
        assert(states[c].connection_id@ != connection_id);
    } else if c > i {
        assert(states[i].connection_id@ != connection_id);
    }
}

/// Pick the id of the space a caller is re-pointed onto (see
/// [`repoint_index`]).
pub fn repoint_target(spaces: &Vec<SpaceSnapshot>) -> (r: Option<String>)
    ensures
        match repoint_index(spaces@) {
            Some(i) => r == Some(spaces@[i].id),
            None => r is None,
        },
{
    let mut i: usize = 0;
    while i < spaces.len()
        invariant
            0 <= i <= spaces.len(),
            forall|j: int| 0 <= j < i ==> !spaces@[j].active,
        decreases spaces.len() - i,
    {
        if spaces[i].active {
            proof {
                let w = choose|k: int|
                    0 <= k < spaces@.len() && spaces@[k].active && forall|j: int|
                        0 <= j < k ==> !spaces@[j].active;
                assert(0 <= i < spaces@.len() && spaces@[i as int].active && forall|j: int|
                    0 <= j < i ==> !spaces@[j].active);
                if w < i {
                } else if w > i {
                    assert(!spaces@[i as int].active);
                }
            }
            return Some(spaces[i].id.clone());
        }
        i = i + 1;
    }
    if spaces.len() > 0 {
        Some(spaces[0].id.clone())
    } else {
        None
    }
}

/// How a relay-routed SwitchSpace ended.
#[derive(Debug, Clone, PartialEq, Eq)]
pub enum SwitchOutcome {
    /// No relay matched the caller's connection id exactly.
    NoRelay,
    /// The relay's control channel was closed.
    SendFailed,
    /// The relay re-pointed its stream.
    Switched,
    /// The relay reported a failure (its message).
    Failed(String),
    /// The relay dropped the reply channel.
    Cancelled,
    /// The relay did not answer in time.
    TimedOut,
}

/// The error text of a SwitchSpace outcome (empty on success).
pub open spec fn switch_error(o: SwitchOutcome) -> Seq<char> {
    match o {
        SwitchOutcome::NoRelay => "reattach required (no matching connection)"@,
        SwitchOutcome::SendFailed => "SwitchSpace: relay unavailable (tearing down)"@,
        SwitchOutcome::Switched => Seq::empty(),
        SwitchOutcome::Failed(e) => "SwitchSpace failed: "@ + e@,
        SwitchOutcome::Cancelled => "SwitchSpace: relay cancelled the request"@,
        SwitchOutcome::TimedOut => "SwitchSpace: timed out waiting for the relay"@,
    }
}

/// The SwitchSpace reply for an outcome: ok only when the relay switched.
pub fn switch_space_reply(outcome: SwitchOutcome) -> (r: ProtoAck)
    ensures
        r.ok == (outcome is Switched),
        r.error@ == switch_error(outcome),
        r.info@.len() == 0,
{
    let ok = matches!(outcome, SwitchOutcome::Switched);
    let error = match outcome {
        SwitchOutcome::NoRelay => "reattach required (no matching connection)".to_owned(),
        SwitchOutcome::SendFailed => "SwitchSpace: relay unavailable (tearing down)".to_owned(),
        SwitchOutcome::Switched => String::new(),
        SwitchOutcome::Failed(e) => {
            let mut m = "SwitchSpace failed: ".to_owned();
            crate::text::push_str(&mut m, e.as_str());
            m
        },
        SwitchOutcome::Cancelled => "SwitchSpace: relay cancelled the request".to_owned(),
        SwitchOutcome::TimedOut => "SwitchSpace: timed out waiting for the relay".to_owned(),
    };
    ProtoAck { ok, error, info: String::new() }
}

/// The CloseSpace refusal when the close would leave no space at all.
pub fn close_space_guard(count: usize) -> (r: Option<ProtoAck>)
    ensures
        r is Some <==> count <= 1,
        r is Some ==> !r->0.ok && r->0.error@ == "cannot close the last space"@ && r->0.info@.len()
            == 0,
{
    if would_close_last_space(count) {
        Some(ProtoAck { ok: false, error: "cannot close the last space".to_owned(), info: String::new() })
    } else {
        None
    }
}

/// The CloseSpace reply for the backend's ack: a failure is forwarded as is,
/// a success is a bare ok.
pub fn close_space_reply(ack: ActionAck) -> (r: ProtoAck)
    ensures
        r.ok == ack.ok,
        ack.ok ==> r.error@.len() == 0 && r.info@.len() == 0,
        !ack.ok ==> r.error@ == (match ack.error {
            Some(e) => e@,
            None => Seq::<char>::empty(),
        }) && r.info@ == (match ack.info {
            Some(i) => i@,
            None => Seq::<char>::empty(),
        }),
{
    if ack.ok {
        ProtoAck { ok: true, error: String::new(), info: String::new() }
    } else {
        ack_to_proto(ack)
    }
}

/// After a successful close, the caller's own relay is re-pointed iff it was
/// viewing the closed space.
pub fn should_repoint_after_close(caller_space: &Option<String>, space_id: &str) -> (r: bool)
    ensures
        r == (match caller_space {
            Some(s) => s@ == space_id@,
            None => false,
        }),
{
    match caller_space {
        Some(s) => str_eq(s.as_str(), space_id),
        None => false,
    }
}

} // verus!
