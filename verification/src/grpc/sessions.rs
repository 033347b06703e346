//! Session lifecycle decisions: the merged ListSessions reply across every
//! backend, and the checks that pick and validate the target of
//! CreateSession, KillSession and RenameSession.

use vstd::prelude::*;
use vstd::string::StrSliceExecFns;

use crate::grpc::helpers::{
    kind_of_proto, layout_error, proto_backend, proto_of, validate_layout_name, ProtoBackend,
};
use crate::multiplexer::routing::{
    collapsed_session, is_collapsed_backend_session, kind_running, kind_token, make_id, name_error,
    resolution, resolve_session, resolves_as, session_id, valid_session_name,
    validate_session_name, BackendKind, Resolution, RoutingError,
};
use crate::text::{decimal, push_char, push_decimal, push_str, str_eq};

verus! {

/// The proto `SessionInfo`.
#[derive(Debug, Clone, PartialEq, Eq)]
pub struct SessionInfo {
    pub name: String,
    pub age_secs: u64,
    pub resurrectable: bool,
    pub tab_count: u32,
    pub pane_count: u32,
    pub has_bell: bool,
    pub is_current: bool,
    pub connected_clients: u32,
    pub backend: ProtoBackend,
    pub id: String,
}

/// One session as a backend lists it: name, age in seconds, resurrectable.
#[derive(Debug, Clone, PartialEq, Eq)]
pub struct ListedSession {
    pub name: String,
    pub age_secs: u64,
    pub resurrectable: bool,
}

/// How one backend's part of the ListSessions fan-out ended.
#[derive(Debug, Clone, PartialEq, Eq)]
pub enum BackendListing {
    /// The backend did not answer within the per-backend budget.
    TimedOut,
    /// The listing task panicked or was cancelled.
    Panicked,
    /// The backend reported an error.
    Unreachable,
    /// The backend's sessions.
    Listed(Vec<ListedSession>),
}

/// The number of clients attached through this server to one session id.
#[derive(Debug, Clone, PartialEq, Eq)]
pub struct ClientCount {
    pub session: String,
    pub count: u32,
}

/// `i` is the first count entry for session id `id`.
pub open spec fn is_count_at(counts: Seq<ClientCount>, id: Seq<char>, i: int) -> bool {
    &&& 0 <= i < counts.len()
    &&& counts[i].session@ == id
    &&& forall|j: int| 0 <= j < i ==> counts[j].session@ != id
}

/// The attached-client count of session id `id` (0 when never attached).
pub open spec fn count_of(counts: Seq<ClientCount>, id: Seq<char>) -> u32 {
    if exists|i: int| is_count_at(counts, id, i) {
        counts[choose|i: int| is_count_at(counts, id, i)].count
    } else {
        0
    }
}

/// The attached-client count of a session id is the count recorded first
/// under that id, and zero when no count is recorded under it.
pub proof fn law_client_count_lookup(counts: Seq<ClientCount>, id: Seq<char>, i: int)
    ensures
        0 <= i < counts.len() && counts[i].session@ == id && (forall|j: int|
            0 <= j < i ==> (#[trigger] counts[j]).session@ != id) ==> count_of(counts, id)
            == counts[i].count,
        (forall|j: int| 0 <= j < counts.len() ==> (#[trigger] counts[j]).session@ != id) ==> count_of(
            counts,
            id,
        ) == 0,
{
    if 0 <= i < counts.len() && counts[i].session@ == id && (forall|j: int|
        0 <= j < i ==> (#[trigger] counts[j]).session@ != id) {
        assert(is_count_at(counts, id, i));
        let c = choose|c: int| is_count_at(counts, id, c);
        if c < i {
            assert(counts[c].session@ != id);
        } else if c > i {
            assert(counts[i].session@ != id);
        }
    }
}

/// Look up the attached-client count of session id `id`.
pub fn client_count(counts: &Vec<ClientCount>, id: &str) -> (r: u32)
    ensures
        r == count_of(counts@, id@),
{
    let mut i: usize = 0;
    while i < counts.len()
        invariant
            0 <= i <= counts.len(),
            forall|j: int| 0 <= j < i ==> counts@[j].session@ != id@,
        decreases counts.len() - i,
    {
        if str_eq(counts[i].session.as_str(), id) {
            proof {
                assert(is_count_at(counts@, id@, i as int));
                let k = choose|k: int| is_count_at(counts@, id@, k);
                if k < i {
                } else if k > i {
                    assert(counts@[i as int].session@ != id@);
                }
            }
            return counts[i].count;
        }
        i = i + 1;
    }
    0
}

/// The sessions a backend's listing contributes, tagged with its kind.
pub open spec fn entries_of(kind: BackendKind, listing: BackendListing) -> Seq<
    (BackendKind, ListedSession),
> {
    match listing {
        BackendListing::Listed(v) => v@.map_values(|s: ListedSession| (kind, s)),
        _ => Seq::empty(),
    }
}

/// Every session of every backend that listed successfully, in order.
pub open spec fn listed(results: Seq<(BackendKind, BackendListing)>) -> Seq<
    (BackendKind, ListedSession),
>
    decreases results.len(),
{
    if results.len() == 0 {
        Seq::empty()
    } else {
        listed(results.drop_last()) + entries_of(results.last().0, results.last().1)
    }
}

proof fn lemma_listed_concat(
    a: Seq<(BackendKind, BackendListing)>,
    b: Seq<(BackendKind, BackendListing)>,
)
    ensures
        listed(a + b) == listed(a) + listed(b),
    decreases b.len(),
{
    if b.len() == 0 {
        assert(a + b =~= a);
        assert(listed(a) + listed(b) =~= listed(a));
    } else {
        lemma_listed_concat(a, b.drop_last());
        assert((a + b).drop_last() =~= a + b.drop_last());
        assert((a + b).last() == b.last());
        assert(listed(a) + listed(b.drop_last()) + entries_of(b.last().0, b.last().1) =~= listed(a)
            + (listed(b.drop_last()) + entries_of(b.last().0, b.last().1)));
    }
}

/// The `j`-th session of backend listing `k` stands in the flattened list
/// right after the sessions of the listings before it.
proof fn lemma_listed_at(results: Seq<(BackendKind, BackendListing)>, k: int, j: int)
    requires
        0 <= k < results.len(),
        results[k].1 is Listed,
        0 <= j < results[k].1->Listed_0@.len(),
    ensures
        listed(results.take(k)).len() + j < listed(results).len(),
        listed(results)[listed(results.take(k)).len() + j] == (
            results[k].0,
            results[k].1->Listed_0@[j],
        ),
{
    let pre = results.take(k + 1);
    let post = results.skip(k + 1);
    assert(results =~= pre + post);
    lemma_listed_concat(pre, post);
    assert(pre.drop_last() =~= results.take(k));
    assert(pre.last() == results[k]);
    let e = entries_of(results[k].0, results[k].1);
    assert(listed(pre) == listed(results.take(k)) + e);
    let n = listed(results.take(k)).len();
    assert(listed(results)[n + j] == listed(pre)[n + j]);
    assert(listed(pre)[n + j] == e[j]);
}

/// Every session a backend listed appears in the merged list, after the
/// sessions of the backends listed before it, with its name, age and
/// resurrectable flag unchanged, tagged with its backend, under the
/// backend-qualified id and with the clients attached under that id; the
/// layout-derived fields are zero.
pub proof fn law_merged_session(
    results: Seq<(BackendKind, BackendListing)>,
    counts: Seq<ClientCount>,
    r: Seq<SessionInfo>,
    k: int,
    j: int,
)
    requires
        r.len() == listed(results).len(),
        forall|q: int|
            0 <= q < r.len() ==> session_info_of(#[trigger] r[q], listed(results)[q].0, listed(results)[q].1, counts),
        0 <= k < results.len(),
        results[k].1 is Listed,
        0 <= j < results[k].1->Listed_0@.len(),
    ensures
        ({
            let m = listed(results.take(k)).len() + j;
            let s = results[k].1->Listed_0@[j];
            let kind = results[k].0;
            &&& 0 <= m < r.len()
            &&& r[m].name == s.name
            &&& r[m].age_secs == s.age_secs
            &&& r[m].resurrectable == s.resurrectable
            &&& r[m].backend == proto_of(kind)
            &&& r[m].id@ == session_id(kind, s.name@)
            &&& r[m].connected_clients == count_of(counts, session_id(kind, s.name@))
            &&& r[m].tab_count == 0 && r[m].pane_count == 0
            &&& !r[m].has_bell && !r[m].is_current
        }),
{
    lemma_listed_at(results, k, j);
    let m = listed(results.take(k)).len() + j;
    assert(session_info_of(r[m], listed(results)[m].0, listed(results)[m].1, counts));
}

/// `m` is the proto entry of session `s` of backend `kind`: tagged with the
/// backend, given its qualified id and the clients attached under that id;
/// the layout-derived fields are left at zero.
pub open spec fn session_info_of(
    m: SessionInfo,
    kind: BackendKind,
    s: ListedSession,
    counts: Seq<ClientCount>,
) -> bool {
    &&& m.name == s.name
    &&& m.age_secs == s.age_secs
    &&& m.resurrectable == s.resurrectable
    &&& m.tab_count == 0
    &&& m.pane_count == 0
    &&& !m.has_bell
    &&& !m.is_current
    &&& m.backend == proto_of(kind)
    &&& m.id@ == session_id(kind, s.name@)
    &&& m.connected_clients == count_of(counts, session_id(kind, s.name@))
}

fn session_info(kind: BackendKind, s: &ListedSession, counts: &Vec<ClientCount>) -> (r: SessionInfo)
    ensures
        session_info_of(r, kind, *s, counts@),
{
    let id = make_id(kind, s.name.as_str());
    let connected_clients = client_count(counts, id.as_str());
    SessionInfo {
        name: s.name.clone(),
        age_secs: s.age_secs,
        resurrectable: s.resurrectable,
        tab_count: 0,
        pane_count: 0,
        has_bell: false,
        is_current: false,
        connected_clients,
        backend: proto_backend(kind),
        id,
    }
}

/// Merge the ListSessions fan-out: a backend that timed out, panicked or
/// failed is skipped; every other backend contributes its sessions, in
/// order, each with its backend-qualified id and attached-client count.
pub fn merge_session_lists(
    results: &Vec<(BackendKind, BackendListing)>,
    counts: &Vec<ClientCount>,
) -> (r: Vec<SessionInfo>)
    ensures
        r.len() == listed(results@).len(),
        forall|k: int|
            0 <= k < r.len() ==> session_info_of(
                #[trigger] r@[k],
                listed(results@)[k].0,
                listed(results@)[k].1,
                counts@,
            ),
{
    let mut out: Vec<SessionInfo> = Vec::new();
    let mut i: usize = 0;
    while i < results.len()
        invariant
            0 <= i <= results.len(),
            out.len() == listed(results@.take(i as int)).len(),
            forall|k: int|
                0 <= k < out.len() ==> session_info_of(
                    #[trigger] out@[k],
                    listed(results@.take(i as int))[k].0,
                    listed(results@.take(i as int))[k].1,
                    counts@,
                ),
        decreases results.len() - i,
    {
        let ghost before = listed(results@.take(i as int));
        let ghost added = entries_of(results@[i as int].0, results@[i as int].1);
        proof {
            assert(results@.take(i + 1).drop_last() =~= results@.take(i as int));
            assert(listed(results@.take(i + 1)) == before + added);
        }
        let kind = results[i].0;
        match &results[i].1 {
            BackendListing::Listed(sessions) => {
                let mut j: usize = 0;
                while j < sessions.len()
                    invariant
                        0 <= j <= sessions.len(),
                        added == sessions@.map_values(|s: ListedSession| (kind, s)),
                        out.len() == before.len() + j,
                        forall|k: int|
                            0 <= k < out.len() ==> session_info_of(
                                #[trigger] out@[k],
                                (before + added)[k].0,
                                (before + added)[k].1,
                                counts@,
                            ),
                    decreases sessions.len() - j,
                {
                    let m = session_info(kind, &sessions[j], counts);
                    out.push(m);
                    j = j + 1;
                }
            },
            _ => {
                assert(added.len() == 0);
                assert((before + added) =~= before);
            },
        }
        i = i + 1;
    }
    proof {
        assert(results@.take(results@.len() as int) =~= results@);
    }
    out
}

/// The proto `Backend` tag an integer names, if any.
pub open spec fn backend_of_tag(tag: i32) -> Option<ProtoBackend> {
    if tag == 0 {
        Some(ProtoBackend::Unspecified)
    } else if tag == 1 {
        Some(ProtoBackend::Zellij)
    } else if tag == 2 {
        Some(ProtoBackend::Herdr)
    } else {
        None
    }
}

/// The signed decimal rendering of `n`.
pub open spec fn signed_decimal(n: int) -> Seq<char> {
    if n < 0 {
        seq!['-'] + decimal((-n) as nat)
    } else {
        decimal(n as nat)
    }
}

/// How CreateSession picks the backend that owns the new session.
pub enum BackendChoice {
    Chosen(BackendKind),
    UnknownTag,
    Ambiguous,
    NotRunning(BackendKind),
}

/// The backend rule of CreateSession: a named backend must be running; an
/// unspecified one defaults to the sole running backend and is ambiguous
/// when several run; an unknown tag is refused.
pub open spec fn backend_choice(tag: i32, running: Seq<BackendKind>) -> BackendChoice {
    match backend_of_tag(tag) {
        None => BackendChoice::UnknownTag,
        Some(b) => match kind_of_proto(b) {
            Some(k) => if running.contains(k) {
                BackendChoice::Chosen(k)
            } else {
                BackendChoice::NotRunning(k)
            },
            None => if running.len() > 1 {
                BackendChoice::Ambiguous
            } else {
                BackendChoice::Chosen(running[0])
            },
        },
    }
}

/// CreateSession's backend rule on a server running at least one backend:
/// a chosen backend is always one that runs; naming zellij (1) or herdr (2)
/// chooses it exactly when it runs; leaving it unspecified (0) chooses the
/// sole running backend and is ambiguous when several run; any other tag is
/// unknown.
pub proof fn law_backend_choice(tag: i32, running: Seq<BackendKind>)
    requires
        running.len() > 0,
    ensures
        backend_choice(tag, running) matches BackendChoice::Chosen(k) ==> running.contains(k),
        tag == 1 ==> (backend_choice(tag, running) == BackendChoice::Chosen(BackendKind::Zellij)
            <==> running.contains(BackendKind::Zellij)),
        tag == 2 ==> (backend_choice(tag, running) == BackendChoice::Chosen(BackendKind::Herdr)
            <==> running.contains(BackendKind::Herdr)),
        tag == 0 && running.len() == 1 ==> backend_choice(tag, running) == BackendChoice::Chosen(
            running[0],
        ),
        tag == 0 && running.len() > 1 ==> backend_choice(tag, running) == BackendChoice::Ambiguous,
        tag != 0 && tag != 1 && tag != 2 ==> backend_choice(tag, running) == BackendChoice::UnknownTag,
{
    if tag == 0 && running.len() == 1 {
        assert(running.contains(running[0]));
    }
}

/// The client-facing message of each refused backend choice.
pub open spec fn choice_message(c: BackendChoice, tag: i32) -> Seq<char> {
    match c {
        BackendChoice::UnknownTag => "CreateSession: unknown backend tag "@ + signed_decimal(
            tag as int,
        ),
        BackendChoice::Ambiguous =>
            "CreateSession: this server runs multiple backends — specify which backend to create the session on"@,
        BackendChoice::NotRunning(k) => "CreateSession: backend '"@ + kind_token(k)
            + "' is recognised but not running on this server — re-list to see available backends"@,
        BackendChoice::Chosen(_) => Seq::empty(),
    }
}

fn push_signed(s: &mut String, n: i32)
    ensures
        final(s)@ == old(s)@ + signed_decimal(n as int),
{
    if n < 0 {
        push_char(s, '-');
        let m: i64 = n as i64;
        push_decimal(s, (-m) as u64);
        assert(final(s)@ =~= old(s)@ + signed_decimal(n as int));
    } else {
        push_decimal(s, n as u64);
    }
}

/// `r` is the refusal of the backend choice for `tag`: not-found for a
/// backend that is not running, invalid-argument otherwise.
pub open spec fn choice_refused<T>(tag: i32, running: Seq<BackendKind>, r: Result<T, RoutingError>) -> bool {
    match backend_choice(tag, running) {
        BackendChoice::NotRunning(k) => r matches Err(RoutingError::NotFound(m)) && m@
            == choice_message(backend_choice(tag, running), tag),
        BackendChoice::Chosen(_) => true,
        c => r matches Err(RoutingError::InvalidArgument(m)) && m@ == choice_message(c, tag),
    }
}

/// Pick the backend of CreateSession from the request's proto tag (see
/// [`backend_choice`]). `running` lists the running backends, never empty.
pub fn create_session_backend(tag: i32, running: &Vec<BackendKind>) -> (r: Result<
    BackendKind,
    RoutingError,
>)
    requires
        running.len() > 0,
    ensures
        match backend_choice(tag, running@) {
            BackendChoice::Chosen(k) => r == Ok::<BackendKind, RoutingError>(k),
            _ => choice_refused(tag, running@, r),
        },
{
    let backend = if tag == 0 {
        ProtoBackend::Unspecified
    } else if tag == 1 {
        ProtoBackend::Zellij
    } else if tag == 2 {
        ProtoBackend::Herdr
    } else {
        let mut m = String::new();
        push_str(&mut m, "CreateSession: unknown backend tag ");
        push_signed(&mut m, tag);
        return Err(RoutingError::InvalidArgument(m));
    };
    match crate::grpc::helpers::kind_from_proto(backend) {
        Some(kind) => {
            if kind_running(running, kind) {
                Ok(kind)
            } else {
                let mut m = String::new();
                push_str(&mut m, "CreateSession: backend '");
                push_str(&mut m, kind.token());
                push_str(
                    &mut m,
                    "' is recognised but not running on this server — re-list to see available backends",
                );
                Err(RoutingError::NotFound(m))
            }
        },
        None => {
            if running.len() > 1 {
                Err(
                    RoutingError::InvalidArgument(
                        "CreateSession: this server runs multiple backends — specify which backend to create the session on".to_owned(),
                    ),
                )
            } else {
                Ok(running[0])
            }
        },
    }
}

/// What CreateSession hands to the chosen backend.
#[derive(Debug, Clone, PartialEq, Eq)]
pub struct CreateSessionPlan {
    pub kind: BackendKind,
    pub name: String,
    /// `None` when the client sent no layout (the backend's default applies).
    pub layout: Option<String>,
}

/// The checks of CreateSession, in order: the backend choice, the new
/// session's name, then the layout (an empty layout means the default; any
/// other must be a bare layout name).
pub fn plan_create_session(
    tag: i32,
    running: &Vec<BackendKind>,
    name: &str,
    layout: &str,
) -> (r: Result<CreateSessionPlan, RoutingError>)
    requires
        running.len() > 0,
    ensures
        r is Ok <==> (backend_choice(tag, running@) is Chosen && valid_session_name(name@) && (
        layout@.len() == 0 || valid_session_name(layout@))),
        r is Ok ==> r->Ok_0.kind == backend_choice(tag, running@)->Chosen_0 && r->Ok_0.name@
            == name@ && (if layout@.len() == 0 {
            r->Ok_0.layout is None
        } else {
            r->Ok_0.layout is Some && r->Ok_0.layout->0@ == layout@
        }),
        !(backend_choice(tag, running@) is Chosen) ==> choice_refused(tag, running@, r),
        backend_choice(tag, running@) is Chosen && !valid_session_name(name@) ==> (r matches Err(
            RoutingError::InvalidArgument(m),
        ) && m@ == name_error(name@)),
        backend_choice(tag, running@) is Chosen && valid_session_name(name@) && layout@.len() > 0
            && !valid_session_name(layout@) ==> (r matches Err(RoutingError::InvalidArgument(m))
            && m@ == layout_error(layout@)),
{
    let kind = match create_session_backend(tag, running) {
        Ok(k) => k,
        Err(e) => return Err(e),
    };
    match validate_session_name(name) {
        Ok(()) => {},
        Err(m) => return Err(RoutingError::InvalidArgument(m)),
    }
    let layout = if layout.unicode_len() == 0 {
        None
    } else {
        match validate_layout_name(layout) {
            Ok(()) => Some(layout.to_owned()),
            Err(m) => return Err(RoutingError::InvalidArgument(m)),
        }
    };
    Ok(CreateSessionPlan { kind, name: name.to_owned(), layout })
}

/// The KillSession target: the collapsed herdr session has no killable
/// session object and is refused before resolving; any other id resolves
/// as usual.
pub fn kill_session_target(running: &Vec<BackendKind>, session: &str) -> (r: Result<
    (BackendKind, String),
    RoutingError,
>)
    ensures
        collapsed_session(session@) ==> (r matches Err(RoutingError::InvalidArgument(m)) && m@
            == "the herdr session cannot be killed — manage its workspaces via CloseSpace"@),
        !collapsed_session(session@) ==> resolves_as(r, running@, session@),
{
    if is_collapsed_backend_session(session) {
        return Err(
            RoutingError::InvalidArgument(
                "the herdr session cannot be killed — manage its workspaces via CloseSpace".to_owned(),
            ),
        );
    }
    resolve_session(running, session)
}

/// The RenameSession target: the session id resolves first, then the new
/// bare name must pass the session-name guard.
pub fn rename_session_target(running: &Vec<BackendKind>, session: &str, new_name: &str) -> (r:
    Result<(BackendKind, String), RoutingError>)
    ensures
        valid_session_name(new_name@) ==> resolves_as(r, running@, session@),
        !valid_session_name(new_name@) ==> match resolution(running@, session@) {
            Resolution::Resolved(_, _) => r matches Err(RoutingError::InvalidArgument(m)) && m@
                == name_error(new_name@),
            _ => resolves_as(r, running@, session@),
        },
{
    let resolved = resolve_session(running, session);
    match resolved {
        Ok((kind, bare)) => match validate_session_name(new_name) {
            Ok(()) => Ok((kind, bare)),
            Err(m) => Err(RoutingError::InvalidArgument(m)),
        },
        Err(e) => Err(e),
    }
}

} // verus!
