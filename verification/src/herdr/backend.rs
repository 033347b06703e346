//! The herdr backend: one herdr daemon presented as a single muxr session
//! (the sentinel `"herdr"`) whose workspaces are switchable spaces.
//!
//! Session-scoped operations resolve the sentinel to the daemon's active (or
//! first) workspace; any other name is matched by workspace label, exactly
//! one match required. Operations herdr cannot perform over its JSON API
//! answer an honest failed ack; meaningless ones a benign no-op.

use vstd::prelude::*;

use crate::herdr::api::{ApiParams, ApiRequest, PaneInfo, PaneLayoutRect, PaneZoomMode, SplitDirection, WorkspaceInfo};
use crate::herdr::control::HerdrControl;
use crate::herdr::paths::{HerdrEnv, HerdrSocketPaths};
use crate::herdr::registry::{HerdrPaneRegistry, HerdrTabRegistry};
use crate::multiplexer::routing::{valid_session_name, validate_session_name};
use crate::multiplexer::types::{ActionAck, PaneRef, ResizeDir, ResizeKind, ScrollDir, SpaceSnapshot};
use crate::text::{push_str, str_eq};

verus! {

/// Default rows reported when herdr exposes no usable layout area.
pub const DEFAULT_SESSION_ROWS: u16 = 24;

/// Default columns reported when herdr exposes no usable layout area.
pub const DEFAULT_SESSION_COLS: u16 = 80;

/// Bare-name sentinel of herdr's single collapsed muxr session.
pub const HERDR_SESSION: &'static str = "herdr";

/// Refusal of an attempt to kill or rename the singular herdr session.
pub const HERDR_SESSION_IMMUTABLE_MSG: &'static str =
    "the herdr session cannot be killed or renamed — manage workspaces via CloseSpace/RenameSpace";

/// The text of [`HERDR_SESSION`].
pub open spec fn sentinel() -> Seq<char> {
    "herdr"@
}

/// The text of [`HERDR_SESSION_IMMUTABLE_MSG`].
pub open spec fn immutable_msg() -> Seq<char> {
    "the herdr session cannot be killed or renamed — manage workspaces via CloseSpace/RenameSpace"@
}

/// `session` is the sentinel.
pub fn is_sentinel(session: &str) -> (r: bool)
    ensures
        r == (session@ == sentinel()),
{
    proof {
        reveal_strlit("herdr");
    }
    str_eq(session, HERDR_SESSION)
}

/// Derive `(rows, cols)` from a herdr layout area, substituting the default
/// for each zero dimension.
pub fn session_size_from_area(area: PaneLayoutRect) -> (r: (u16, u16))
    ensures
        r.0 == (if area.height == 0 {
            DEFAULT_SESSION_ROWS
        } else {
            area.height
        }),
        r.1 == (if area.width == 0 {
            DEFAULT_SESSION_COLS
        } else {
            area.width
        }),
{
    let rows = if area.height == 0 {
        DEFAULT_SESSION_ROWS
    } else {
        area.height
    };
    let cols = if area.width == 0 {
        DEFAULT_SESSION_COLS
    } else {
        area.width
    };
    (rows, cols)
}

/// Map one herdr workspace to a neutral space (`active` is the daemon's
/// focused workspace).
pub fn space_from_workspace(w: WorkspaceInfo) -> (r: SpaceSnapshot)
    ensures
        r.id == w.workspace_id,
        r.name == w.label,
        r.active == w.focused,
{
    SpaceSnapshot { id: w.workspace_id, name: w.label, active: w.focused }
}

/// The workspace the sentinel binds to: the first focused, else the first
/// listed.
pub open spec fn active_or_first(ws: Seq<WorkspaceInfo>) -> Option<int> {
    if exists|i: int| 0 <= i < ws.len() && ws[i].focused {
        Some(
            choose|i: int|
                0 <= i < ws.len() && ws[i].focused && forall|j: int| 0 <= j < i ==> !ws[j].focused,
        )
    } else if ws.len() > 0 {
        Some(0)
    } else {
        None
    }
}

/// The sentinel session binds to the first workspace herdr reports
/// focused; when none is focused, to the first listed; and to none when no
/// workspace exists.
pub proof fn law_active_or_first(ws: Seq<WorkspaceInfo>, i: int)
    ensures
        0 <= i < ws.len() && ws[i].focused && (forall|j: int| 0 <= j < i ==> !(#[trigger] ws[j]).focused)
            ==> active_or_first(ws) == Some(i),
        ws.len() > 0 && (forall|j: int| 0 <= j < ws.len() ==> !(#[trigger] ws[j]).focused)
            ==> active_or_first(ws) == Some(0int),
        ws.len() == 0 ==> active_or_first(ws) is None,
{
    if 0 <= i < ws.len() && ws[i].focused && (forall|j: int| 0 <= j < i ==> !(#[trigger] ws[j]).focused) {
        let c = choose|c: int| 0 <= c < ws.len() && ws[c].focused && forall|j: int| 0 <= j < c ==> !ws[j].focused;
        assert(0 <= i < ws.len() && ws[i].focused && forall|j: int| 0 <= j < i ==> !ws[j].focused);
        if c < i {
            assert(!ws[c].focused);
        } else if c > i {
            assert(!ws[i].focused);
        }
    }
}

/// Pick the daemon's active workspace, falling back to the first listed
/// (`None` only for a daemon without workspaces).
pub fn pick_active_or_first(workspaces: &Vec<WorkspaceInfo>) -> (r: Option<usize>)
    ensures
        r matches Some(k) ==> k < workspaces.len(),
        match active_or_first(workspaces@) {
            Some(i) => r is Some && r->0 as int == i,
            None => r is None,
        },
{
    let mut i: usize = 0;
    while i < workspaces.len()
        invariant
            0 <= i <= workspaces.len(),
            forall|j: int| 0 <= j < i ==> !workspaces@[j].focused,
        decreases workspaces.len() - i,
    {
        if workspaces[i].focused {
            proof {
                let w = choose|k: int|
                    0 <= k < workspaces@.len() && workspaces@[k].focused && forall|j: int|
                        0 <= j < k ==> !workspaces@[j].focused;
                assert(0 <= i < workspaces@.len() && workspaces@[i as int].focused);
                if w < i {
                } else if w > i {
                    assert(!workspaces@[i as int].focused);
                }
            }
            return Some(i);
        }
        i = i + 1;
    }
    if workspaces.len() > 0 {
        Some(0)
    } else {
        None
    }
}

/// The number of listed workspaces labelled `label`.
pub open spec fn label_count(ws: Seq<WorkspaceInfo>, label: Seq<char>) -> nat
    decreases ws.len(),
{
    if ws.len() == 0 {
        0
    } else {
        label_count(ws.drop_last(), label) + (if ws.last().label@ == label {
            1nat
        } else {
            0nat
        })
    }
}

/// `i` is the first workspace labelled `label`.
pub open spec fn is_label_at(ws: Seq<WorkspaceInfo>, label: Seq<char>, i: int) -> bool {
    &&& 0 <= i < ws.len()
    &&& ws[i].label@ == label
    &&& forall|j: int| 0 <= j < i ==> ws[j].label@ != label
}

proof fn lemma_label_count_zero(ws: Seq<WorkspaceInfo>, label: Seq<char>)
    ensures
        label_count(ws, label) == 0 <==> forall|j: int| 0 <= j < ws.len() ==> ws[j].label@ != label,
    decreases ws.len(),
{
    if ws.len() > 0 {
        lemma_label_count_zero(ws.drop_last(), label);
        assert forall|j: int| 0 <= j < ws.len() - 1 implies ws.drop_last()[j] == ws[j] by {}
        if label_count(ws, label) == 0 {
            assert forall|j: int| 0 <= j < ws.len() implies ws[j].label@ != label by {
                if j < ws.len() - 1 {
                    assert(ws.drop_last()[j] == ws[j]);
                }
            }
        }
    }
}

/// Why a non-sentinel session name resolves to no workspace: no workspace
/// carries the label, or several do.
pub open spec fn label_error(ws: Seq<WorkspaceInfo>, session: Seq<char>) -> Seq<char> {
    if label_count(ws, session) == 0 {
        "herdr: no workspace with label '"@ + session + "'"@
    } else {
        "herdr: ambiguous session: multiple herdr workspaces labeled '"@ + session + "'"@
    }
}

/// The workspace a non-sentinel session name resolves to: its label must
/// match exactly one workspace (none: no such session; several: ambiguous,
/// refused rather than guessed).
pub fn workspace_id_for(workspaces: &Vec<WorkspaceInfo>, session: &str) -> (r: Result<
    String,
    String,
>)
    ensures
        label_count(workspaces@, session@) != 1 ==> r is Err && r->Err_0@ == label_error(
            workspaces@,
            session@,
        ),
        label_count(workspaces@, session@) == 1 ==> r is Ok && exists|i: int|
            is_label_at(workspaces@, session@, i) && r->Ok_0@ == workspaces@[i].workspace_id@,
{
    let mut found: Option<usize> = None;
    let mut count: usize = 0;
    let mut i: usize = 0;
    while i < workspaces.len()
        invariant
            0 <= i <= workspaces.len(),
            count == label_count(workspaces@.take(i as int), session@),
            count <= i,
            found is None <==> count == 0,
            found matches Some(k) ==> is_label_at(workspaces@, session@, k as int) && k < i,
            found is None ==> forall|j: int| 0 <= j < i ==> workspaces@[j].label@ != session@,
        decreases workspaces.len() - i,
    {
        proof {
            assert(workspaces@.take(i + 1).drop_last() =~= workspaces@.take(i as int));
            assert(workspaces@.take(i + 1).last() == workspaces@[i as int]);
        }
        if str_eq(workspaces[i].label.as_str(), session) {
            if found.is_none() {
                found = Some(i);
            }
            count = count + 1;
        }
        i = i + 1;
    }
    proof {
        assert(workspaces@.take(workspaces@.len() as int) =~= workspaces@);
    }
    if count == 0 {
        let mut m = String::new();
        push_str(&mut m, "herdr: no workspace with label '");
        push_str(&mut m, session);
        push_str(&mut m, "'");
        return Err(m);
    }
    if count > 1 {
        let mut m = String::new();
        push_str(&mut m, "herdr: ambiguous session: multiple herdr workspaces labeled '");
        push_str(&mut m, session);
        push_str(&mut m, "'");
        return Err(m);
    }
    match found {
        Some(k) => Ok(workspaces[k].workspace_id.clone()),
        None => Err(String::new()),
    }
}

/// The workspace id the sentinel binds to (error when the daemon has no
/// workspaces).
pub fn active_or_first_workspace_id(workspaces: &Vec<WorkspaceInfo>) -> (r: Result<String, String>)
    ensures
        match active_or_first(workspaces@) {
            Some(i) => r is Ok && r->Ok_0@ == workspaces@[i].workspace_id@,
            None => r is Err && r->Err_0@ == "herdr: daemon has no workspaces to attach"@,
        },
{
    match pick_active_or_first(workspaces) {
        Some(i) => Ok(workspaces[i].workspace_id.clone()),
        None => Err("herdr: daemon has no workspaces to attach".to_owned()),
    }
}

/// `r` is the workspace `session` resolves to over `ws` (see
/// [`resolve_workspace`]).
pub open spec fn resolves_workspace(ws: Seq<WorkspaceInfo>, session: Seq<char>, r: Result<String, String>) -> bool {
    if session == sentinel() {
        match active_or_first(ws) {
            Some(i) => r is Ok && r->Ok_0@ == ws[i].workspace_id@,
            None => r is Err && r->Err_0@ == "herdr: daemon has no workspaces to attach"@,
        }
    } else {
        &&& label_count(ws, session) == 1 ==> r is Ok && exists|i: int|
            is_label_at(ws, session, i) && r->Ok_0@ == ws[i].workspace_id@
        &&& label_count(ws, session) != 1 ==> r is Err && r->Err_0@ == label_error(ws, session)
    }
}

/// Resolve a muxr session name to a herdr workspace id: the sentinel binds
/// to the active-or-first workspace; any other name is matched by label.
pub fn resolve_workspace(workspaces: &Vec<WorkspaceInfo>, session: &str) -> (r: Result<String, String>)
    ensures
        resolves_workspace(workspaces@, session@, r),
{
    if is_sentinel(session) {
        active_or_first_workspace_id(workspaces)
    } else {
        workspace_id_for(workspaces, session)
    }
}

/// A benign no-op acknowledgement.
pub fn noop_ack() -> (r: ActionAck)
    ensures
        r.ok && r.error is None && r.info is None,
{
    ActionAck { ok: true, error: None, info: None }
}

/// A failed acknowledgement for a capability herdr lacks:
/// `"<op> is unsupported on the herdr backend"`.
pub fn unsupported_ack(op: &str) -> (r: ActionAck)
    ensures
        !r.ok && r.info is None && r.error is Some && r.error->0@ == op@
            + " is unsupported on the herdr backend"@,
{
    let mut m = String::new();
    push_str(&mut m, op);
    push_str(&mut m, " is unsupported on the herdr backend");
    ActionAck { ok: false, error: Some(m), info: None }
}

/// The outcome of a backend operation that may need one JSON-API call.
#[derive(Debug, Clone, PartialEq)]
pub enum BackendStep {
    /// Send this request; its reply decides the outcome.
    Send(ApiRequest),
    /// Answered without a call.
    Done(ActionAck),
}

/// The pane a session-size query addresses: the first focused pane, else
/// the first listed.
pub open spec fn size_pane(panes: Seq<PaneInfo>) -> Option<int> {
    if exists|i: int| 0 <= i < panes.len() && panes[i].focused {
        Some(
            choose|i: int|
                0 <= i < panes.len() && panes[i].focused && forall|j: int|
                    0 <= j < i ==> !panes[j].focused,
        )
    } else if panes.len() > 0 {
        Some(0)
    } else {
        None
    }
}

/// The session size is read from the first pane reported focused; when
/// none is focused, from the first listed; with no pane, none is read.
pub proof fn law_size_pane(panes: Seq<PaneInfo>, i: int)
    ensures
        0 <= i < panes.len() && panes[i].focused && (forall|j: int|
            0 <= j < i ==> !(#[trigger] panes[j]).focused) ==> size_pane(panes) == Some(i),
        panes.len() > 0 && (forall|j: int| 0 <= j < panes.len() ==> !(#[trigger] panes[j]).focused)
            ==> size_pane(panes) == Some(0int),
        panes.len() == 0 ==> size_pane(panes) is None,
{
    if 0 <= i < panes.len() && panes[i].focused && (forall|j: int|
        0 <= j < i ==> !(#[trigger] panes[j]).focused) {
        let c = choose|c: int|
            0 <= c < panes.len() && panes[c].focused && forall|j: int| 0 <= j < c ==> !panes[j].focused;
        assert(0 <= i < panes.len() && panes[i].focused && forall|j: int| 0 <= j < i ==> !panes[j].focused);
        if c < i {
            assert(!panes[c].focused);
        } else if c > i {
            assert(!panes[i].focused);
        }
    }
}

/// Pick the pane whose tab layout gives the session size (see
/// [`size_pane`]); with none, the default size applies.
pub fn session_size_pane(panes: &Vec<PaneInfo>) -> (r: Option<usize>)
    ensures
        match size_pane(panes@) {
            Some(i) => r is Some && r->0 as int == i,
            None => r is None,
        },
{
    let mut i: usize = 0;
    while i < panes.len()
        invariant
            0 <= i <= panes.len(),
            forall|j: int| 0 <= j < i ==> !panes@[j].focused,
        decreases panes.len() - i,
    {
        if panes[i].focused {
            proof {
                let w = choose|k: int|
                    0 <= k < panes@.len() && panes@[k].focused && forall|j: int|
                        0 <= j < k ==> !panes@[j].focused;
                assert(0 <= i < panes@.len() && panes@[i as int].focused);
                if w < i {
                } else if w > i {
                    assert(!panes@[i as int].focused);
                }
            }
            return Some(i);
        }
        i = i + 1;
    }
    if panes.len() > 0 {
        Some(0)
    } else {
        None
    }
}

/// The herdr-backed multiplexer backend: the control plane (with the id
/// registries) and the resolved socket pair.
pub struct HerdrBackend {
    control: HerdrControl,
    paths: HerdrSocketPaths,
}

impl HerdrBackend {
    /// The control client.
    pub closed spec fn control_view(&self) -> HerdrControl {
        self.control
    }

    /// The socket pair.
    pub closed spec fn paths_view(&self) -> HerdrSocketPaths {
        self.paths
    }

    /// A backend for the herdr instance at `paths`, with fresh registries.
    pub fn new(paths: HerdrSocketPaths) -> (r: Self)
        ensures
            r.paths_view() == paths,
            r.control_view().socket() == paths.api@,
            r.control_view().next_request() == 1,
            r.control_view().timeout_secs() == crate::herdr::control::READ_TIMEOUT_SECS,
            r.control_view().panes().ids() == Map::<Seq<char>, u32>::empty(),
            r.control_view().panes().entries() == Map::<u32, (Seq<char>, Seq<char>)>::empty(),
            r.control_view().panes().next() == crate::herdr::registry::FIRST_ID,
            r.control_view().panes().consistent(),
            r.control_view().tabs().ids() == Map::<Seq<char>, u64>::empty(),
            r.control_view().tabs().entries() == Map::<u64, Seq<char>>::empty(),
            r.control_view().tabs().next() == crate::herdr::registry::FIRST_ID,
            r.control_view().tabs().consistent(),
    {
        let panes = HerdrPaneRegistry::new();
        let tabs = HerdrTabRegistry::new();
        let control = HerdrControl::new(paths.api.clone(), panes, tabs);
        HerdrBackend { control, paths }
    }

    /// A backend resolving herdr's socket pair from the environment values.
    pub fn from_env(env: &HerdrEnv) -> (r: Self)
        ensures
            r.paths_view().api@ == crate::herdr::paths::api_path_of(
                crate::pathtext::text_opt(env.socket_path),
                crate::herdr::paths::config_dir_of(
                    crate::pathtext::text_opt(env.xdg_config_home),
                    crate::pathtext::text_opt(env.home),
                    env.temp_dir@,
                ),
            ),
            r.paths_view().wire@ == crate::herdr::paths::wire_path_of(r.paths_view().api@),
            r.control_view().socket() == r.paths_view().api@,
    {
        Self::new(HerdrSocketPaths::resolve(env))
    }

    /// The socket pair.
    pub fn paths(&self) -> (r: &HerdrSocketPaths)
        ensures
            *r == self.paths_view(),
    {
        &self.paths
    }

    /// The control client.
    pub fn control(&self) -> (r: &HerdrControl)
        ensures
            *r == self.control_view(),
    {
        &self.control
    }

    /// The control client, for issuing requests (which advance its request
    /// counter) and registering panes.
    pub fn control_mut(&mut self) -> (r: &mut HerdrControl)
        ensures
            *r == old(self).control_view(),
            final(self).control_view() == *final(r),
            final(self).paths_view() == old(self).paths_view(),
    {
        &mut self.control
    }

    /// The pane registry (the same one the control client uses).
    pub fn pane_registry(&self) -> (r: &HerdrPaneRegistry)
        ensures
            *r == self.control_view().panes(),
    {
        self.control.pane_registry()
    }

    /// The tab registry (the same one the control client uses).
    pub fn tab_registry(&self) -> (r: &HerdrTabRegistry)
        ensures
            *r == self.control_view().tabs(),
    {
        self.control.tab_registry()
    }

    /// The muxr sessions of the daemon, given its `workspace.list` probe:
    /// exactly the sentinel (age 0, not resurrectable) when the daemon
    /// answered, the probe's error otherwise.
    pub fn list_sessions(&self, probe: Result<Vec<WorkspaceInfo>, String>) -> (r: Result<
        Vec<(String, u64, bool)>,
        String,
    >)
        ensures
            match probe {
                Ok(_) => r is Ok && r->Ok_0.len() == 1 && r->Ok_0@[0].0@ == sentinel()
                    && r->Ok_0@[0].1 == 0 && !r->Ok_0@[0].2,
                Err(e) => r == Err::<Vec<(String, u64, bool)>, String>(e),
            },
    {
        match probe {
            Ok(_) => {
                proof {
                    reveal_strlit("herdr");
                }
                let mut v: Vec<(String, u64, bool)> = Vec::new();
                v.push((HERDR_SESSION.to_owned(), 0, false));
                Ok(v)
            },
            Err(e) => Err(e),
        }
    }

    /// The strict `[A-Za-z0-9_-]` session-name guard.
    pub fn validate_session_name(&self, name: &str) -> (r: Result<(), String>)
        ensures
            r is Ok <==> valid_session_name(name@),
    {
        validate_session_name(name)
    }

    /// CreateSession: the name becomes a new workspace's label, unless a
    /// listed workspace already carries it (the label would become
    /// ambiguous). herdr has no layouts, so none is passed on.
    pub fn create_session(&mut self, name: &str, workspaces: &Vec<WorkspaceInfo>) -> (r:
        BackendStep)
        ensures
            label_count(workspaces@, name@) > 0 ==> (r matches BackendStep::Done(a) && !a.ok
                && a.info is None && a.error is Some && a.error->0@ == "session '"@ + name@
                + "' already exists"@),
            label_count(workspaces@, name@) == 0 ==> (r matches BackendStep::Send(req)
                && HerdrControl::request_for(
                req,
                old(self).control_view().next_request(),
                "workspace.create"@,
            ) && (req.params matches ApiParams::WorkspaceCreate(p) && p.focus && p.cwd is None
                && p.label is Some && p.label->0@ == name@ && p.env.len() == 0)
                && HerdrControl::issued_from(final(self).control_view(), old(self).control_view())),
            label_count(workspaces@, name@) > 0 ==> final(self).control_view() == old(
                self,
            ).control_view(),
            final(self).paths_view() == old(self).paths_view(),
    {
        proof {
            lemma_label_count_zero(workspaces@, name@);
        }
        let mut i: usize = 0;
        while i < workspaces.len()
            invariant
                0 <= i <= workspaces.len(),
                forall|j: int| 0 <= j < i ==> workspaces@[j].label@ != name@,
                label_count(workspaces@, name@) == 0 <==> forall|j: int|
                    0 <= j < workspaces@.len() ==> workspaces@[j].label@ != name@,
            decreases workspaces.len() - i,
        {
            if str_eq(workspaces[i].label.as_str(), name) {
                let mut m = String::new();
                push_str(&mut m, "session '");
                push_str(&mut m, name);
                push_str(&mut m, "' already exists");
                return BackendStep::Done(ActionAck { ok: false, error: Some(m), info: None });
            }
            i = i + 1;
        }
        BackendStep::Send(self.control.create_workspace(Some(name.to_owned())))
    }

    /// KillSession: the sentinel is refused without any call; any other
    /// name resolves by label to the workspace to close.
    pub fn kill_session(&mut self, session: &str, workspaces: &Vec<WorkspaceInfo>) -> (r: Result<
        ApiRequest,
        String,
    >)
        ensures
            session@ == sentinel() ==> r is Err && r->Err_0@ == immutable_msg(),
            session@ != sentinel() && label_count(workspaces@, session@) != 1 ==> r is Err
                && r->Err_0@ == label_error(workspaces@, session@),
            r is Err ==> final(self).control_view() == old(self).control_view(),
            session@ != sentinel() && label_count(workspaces@, session@) == 1 ==> r is Ok
                && HerdrControl::request_for(
                r->Ok_0,
                old(self).control_view().next_request(),
                "workspace.close"@,
            ) && (r->Ok_0.params matches ApiParams::WorkspaceClose(p) && exists|i: int|
                is_label_at(workspaces@, session@, i) && p.workspace_id@
                    == workspaces@[i].workspace_id@) && HerdrControl::issued_from(
                final(self).control_view(),
                old(self).control_view(),
            ),
            final(self).paths_view() == old(self).paths_view(),
    {
        if is_sentinel(session) {
            proof {
                reveal_strlit(
                    "the herdr session cannot be killed or renamed — manage workspaces via CloseSpace/RenameSpace",
                );
            }
            return Err(HERDR_SESSION_IMMUTABLE_MSG.to_owned());
        }
        match workspace_id_for(workspaces, session) {
            Ok(id) => Ok(self.control.close_workspace(id.as_str())),
            Err(e) => Err(e),
        }
    }

    /// The outcome of the close request of KillSession.
    pub fn kill_session_outcome(ack: ActionAck) -> (r: Result<(), String>)
        ensures
            ack.ok ==> r is Ok,
            !ack.ok ==> r is Err && r->Err_0@ == "herdr workspace.close failed: "@ + (match ack.error {
                Some(e) => e@,
                None => "unknown error"@,
            }),
    {
        if ack.ok {
            Ok(())
        } else {
            let mut m = String::new();
            push_str(&mut m, "herdr workspace.close failed: ");
            match &ack.error {
                Some(e) => push_str(&mut m, e.as_str()),
                None => push_str(&mut m, "unknown error"),
            }
            Err(m)
        }
    }

    /// RenameSession: the sentinel is refused with a failed ack and no call;
    /// any other name resolves by label to the workspace to rename.
    pub fn rename_session(&mut self, session: &str, new_name: String, workspaces: &Vec<WorkspaceInfo>) -> (r:
        Result<BackendStep, String>)
        ensures
            session@ == sentinel() ==> (r matches Ok(BackendStep::Done(a)) && !a.ok && a.info is None
                && a.error is Some && a.error->0@ == immutable_msg()),
            session@ != sentinel() && label_count(workspaces@, session@) != 1 ==> r is Err
                && r->Err_0@ == label_error(workspaces@, session@),
            !(r matches Ok(BackendStep::Send(_))) ==> final(self).control_view() == old(
                self,
            ).control_view(),
            session@ != sentinel() && label_count(workspaces@, session@) == 1 ==> (r matches Ok(
                BackendStep::Send(req),
            ) && HerdrControl::request_for(
                req,
                old(self).control_view().next_request(),
                "workspace.rename"@,
            ) && (req.params matches ApiParams::WorkspaceRename(p) && p.label@ == new_name@
                && exists|i: int|
                is_label_at(workspaces@, session@, i) && p.workspace_id@
                    == workspaces@[i].workspace_id@) && HerdrControl::issued_from(
                final(self).control_view(),
                old(self).control_view(),
            )),
            final(self).paths_view() == old(self).paths_view(),
    {
        if is_sentinel(session) {
            proof {
                reveal_strlit(
                    "the herdr session cannot be killed or renamed — manage workspaces via CloseSpace/RenameSpace",
                );
            }
            return Ok(
                BackendStep::Done(
                    ActionAck {
                        ok: false,
                        error: Some(HERDR_SESSION_IMMUTABLE_MSG.to_owned()),
                        info: None,
                    },
                ),
            );
        }
        match workspace_id_for(workspaces, session) {
            Ok(id) => Ok(BackendStep::Send(self.control.rename_workspace(id.as_str(), new_name.as_str()))),
            Err(e) => Err(e),
        }
    }

    /// The neutral spaces of the daemon's workspaces, in listing order.
    pub fn list_spaces(&self, workspaces: Vec<WorkspaceInfo>) -> (r: Vec<SpaceSnapshot>)
        ensures
            r.len() == workspaces.len(),
            forall|i: int|
                #![trigger r@[i]]
                0 <= i < r.len() ==> r@[i].id == workspaces@[i].workspace_id && r@[i].name
                    == workspaces@[i].label && r@[i].active == workspaces@[i].focused,
    {
        let mut out: Vec<SpaceSnapshot> = Vec::new();
        let mut i: usize = 0;
        while i < workspaces.len()
            invariant
                0 <= i <= workspaces.len(),
                out.len() == i,
                forall|k: int|
                    #![trigger out@[k]]
                    0 <= k < i ==> out@[k].id == workspaces@[k].workspace_id && out@[k].name
                        == workspaces@[k].label && out@[k].active == workspaces@[k].focused,
            decreases workspaces.len() - i,
        {
            let w = &workspaces[i];
            out.push(SpaceSnapshot { id: w.workspace_id.clone(), name: w.label.clone(), active: w.focused });
            i = i + 1;
        }
        out
    }

    /// Input is wire-only on herdr: an honest failure.
    pub fn write_to_pane(&self, session: &str, pane: PaneRef, bytes: Vec<u8>) -> (r: Result<ActionAck, String>)
        ensures
            r is Ok && !r->Ok_0.ok && r->Ok_0.error is Some && r->Ok_0.error->0@
                == "write_to_pane is unsupported on the herdr backend"@,
    {
        proof {
            reveal_strlit("write_to_pane");
            reveal_strlit(" is unsupported on the herdr backend");
            reveal_strlit("write_to_pane is unsupported on the herdr backend");
        }
        let a = unsupported_ack("write_to_pane");
        assert(a.error->0@ =~= "write_to_pane is unsupported on the herdr backend"@);
        Ok(a)
    }

    /// Ephemeral focus is a no-op: the relay's re-attach is the real focus.
    pub fn focus_pane(&self, session: &str, pane: PaneRef) -> (r: Result<ActionAck, String>)
        ensures
            r is Ok && r->Ok_0.ok && r->Ok_0.error is None && r->Ok_0.info is None,
    {
        Ok(noop_ack())
    }

    /// Resize is wire-only on herdr: an honest failure.
    pub fn resize_pane(&self, session: &str, pane: PaneRef, kind: ResizeKind, dir: Option<ResizeDir>) -> (r:
        Result<ActionAck, String>)
        ensures
            r is Ok && !r->Ok_0.ok && r->Ok_0.error is Some && r->Ok_0.error->0@
                == "resize_pane is unsupported on the herdr backend"@,
    {
        proof {
            reveal_strlit("resize_pane");
            reveal_strlit(" is unsupported on the herdr backend");
            reveal_strlit("resize_pane is unsupported on the herdr backend");
        }
        let a = unsupported_ack("resize_pane");
        assert(a.error->0@ =~= "resize_pane is unsupported on the herdr backend"@);
        Ok(a)
    }

    /// herdr has no floating layer: toggling is a benign no-op.
    pub fn toggle_pane_floating(&self, session: &str, pane: PaneRef) -> (r: Result<ActionAck, String>)
        ensures
            r is Ok && r->Ok_0.ok && r->Ok_0.error is None && r->Ok_0.info is None,
    {
        Ok(noop_ack())
    }

    /// Scrollback is wire-only on herdr: an honest failure.
    pub fn scroll_pane(&self, session: &str, pane: PaneRef, dir: ScrollDir) -> (r: Result<ActionAck, String>)
        ensures
            r is Ok && !r->Ok_0.ok && r->Ok_0.error is Some && r->Ok_0.error->0@
                == "scroll_pane is unsupported on the herdr backend"@,
    {
        proof {
            reveal_strlit("scroll_pane");
            reveal_strlit(" is unsupported on the herdr backend");
            reveal_strlit("scroll_pane is unsupported on the herdr backend");
        }
        let a = unsupported_ack("scroll_pane");
        assert(a.error->0@ =~= "scroll_pane is unsupported on the herdr backend"@);
        Ok(a)
    }

    /// Nothing floats on herdr: `(is_floating, visible, focused floating)`
    /// is always `(false, false, None)`.
    pub fn pane_is_floating_with_visibility(&self, session: &str, pane: PaneRef) -> (r: Result<
        (bool, bool, Option<PaneRef>),
        String,
    >)
        ensures
            r == Ok::<(bool, bool, Option<PaneRef>), String>((false, false, None)),
    {
        Ok((false, false, None))
    }

    /// NewPane: split the focused pane of the session's workspace to the
    /// right and focus the new pane (herdr has no floating layer and no pane
    /// label on split).
    pub fn new_pane(&mut self, workspace_id: &str) -> (r: Result<ApiRequest, ActionAck>)
        ensures
            r is Ok && HerdrControl::request_for(
                r->Ok_0,
                old(self).control_view().next_request(),
                "pane.split"@,
            ),
            r matches Ok(req) ==> (req.params matches ApiParams::PaneSplit(p) && p.workspace_id is Some
                && p.workspace_id->0@ == workspace_id@ && p.target_pane_id is None && p.direction
                == SplitDirection::Right && p.focus && p.ratio_bits is None && p.cwd is None
                && p.env.len() == 0),
            HerdrControl::issued_from(final(self).control_view(), old(self).control_view()),
            final(self).paths_view() == old(self).paths_view(),
    {
        self.control.split_pane(Some(workspace_id), None, SplitDirection::Right, true)
    }

    /// Pane fullscreen maps to herdr's `pane.zoom` toggle.
    pub fn toggle_pane_fullscreen(&mut self, pane: PaneRef) -> (r: Result<ApiRequest, ActionAck>)
        ensures
            HerdrControl::pane_call(
                old(self).control_view(),
                final(self).control_view(),
                pane.id,
                r,
                "pane.zoom"@,
            ),
            r matches Ok(req) ==> (req.params matches ApiParams::PaneZoom(p) && p.pane_id is Some
                && p.pane_id->0@ == old(self).control_view().panes().entries()[pane.id].0 && p.mode
                == PaneZoomMode::Toggle),
            final(self).paths_view() == old(self).paths_view(),
    {
        self.control.zoom_pane(Some(pane.id), PaneZoomMode::Toggle)
    }

    /// The backend's compatibility marker: `"herdr-wire-v14"`.
    pub fn backend_version(&self) -> (r: String)
        ensures
            r@ == "herdr-wire-v14"@,
    {
        "herdr-wire-v14".to_owned()
    }
}

} // verus!
