//! herdr control plane: the requests of herdr's line-delimited JSON API and
//! the interpretation of its replies.
//!
//! [`HerdrControl`] owns the id registries and the request-id counter. Each
//! operation resolves muxr's numeric pane / tab ids to herdr's opaque ids and
//! yields the [`ApiRequest`] to send (one connection per request); an unknown
//! id yields a failed [`ActionAck`] instead, and no request is issued. The
//! reply of each request is interpreted by the free functions below.

use vstd::prelude::*;

use crate::herdr::api::{
    ApiErrorBody, ApiParams, ApiRequest, ApiResponseBody, ApiResult, LayoutDescription,
    LayoutExportParams, PaneCloseParams, PaneDirection, PaneFocusDirectionParams, PaneInfo,
    PaneLayoutParams, PaneLayoutSnapshot, PaneRenameParams, PaneSplitParams, PaneZoomMode,
    PaneZoomParams, SplitDirection, TabCloseParams, TabCreateParams, TabFocusParams, TabInfo,
    TabRenameParams, WorkspaceCloseParams, WorkspaceCreateParams, WorkspaceInfo,
    WorkspaceListParams, WorkspaceRenameParams, WorkspaceScopedParams,
};
use crate::herdr::registry::{pane_steps, tab_steps, HerdrPaneRegistry, HerdrTabRegistry};
use crate::herdr::relay::{attach_index, resolve_focused_terminal};
use crate::herdr::transcode::{
    info_for, listed_regs, map_extends, pane_term, tab_keys, tab_matches, transcode_layout,
    transcode_regs,
};
use crate::multiplexer::types::{ActionAck, LayoutSnapshot};
use crate::text::{decimal, lemma_decimal_injective, push_decimal, push_str, str_eq};

verus! {

/// Per-call read/write timeout of the JSON-API socket, in seconds.
pub const READ_TIMEOUT_SECS: u64 = 3;

/// Hard ceiling on a single JSON-API response line (8 MiB).
pub const MAX_RESPONSE_BYTES: u64 = 8388608;

/// The JSON-API request id of the `n`-th request: `"muxrd-<n>"`.
pub open spec fn request_id(n: nat) -> Seq<char> {
    "muxrd-"@ + decimal(n)
}

/// The request counter after one request (it wraps like an atomic add).
pub open spec fn advance(n: u64) -> u64 {
    if n == u64::MAX {
        0
    } else {
        (n + 1) as u64
    }
}

/// Requests numbered differently carry different ids.
pub proof fn law_request_ids_distinct(a: nat, b: nat)
    requires
        a != b,
    ensures
        request_id(a) != request_id(b),
{
    if request_id(a) == request_id(b) {
        let p = "muxrd-"@;
        assert(request_id(a).subrange(p.len() as int, request_id(a).len() as int) =~= decimal(a));
        assert(request_id(b).subrange(p.len() as int, request_id(b).len() as int) =~= decimal(b));
        lemma_decimal_injective(a, b);
    }
}

/// Each request carries an id different from the one issued just before it.
pub proof fn law_successive_requests_differ(n: u64)
    ensures
        request_id(n as nat) != request_id(advance(n) as nat),
{
    law_request_ids_distinct(n as nat, advance(n) as nat);
}

/// The request counter after `k` requests starting from `n`.
pub open spec fn advance_by(n: u64, k: nat) -> u64
    decreases k,
{
    if k == 0 {
        n
    } else {
        advance(advance_by(n, (k - 1) as nat))
    }
}

proof fn lemma_advance_by(n: u64, k: nat)
    requires
        n + k <= u64::MAX,
    ensures
        advance_by(n, k) == n + k,
    decreases k,
{
    if k > 0 {
        lemma_advance_by(n, (k - 1) as nat);
    }
}

/// A run of `k` requests from counter `n` that does not wrap numbers them
/// `n, n + 1, ..., n + k - 1` (so from a fresh client the ids are
/// `muxrd-1`, `muxrd-2`, ...), and no two of them share an id.
pub proof fn law_request_sequence(n: u64, k: nat)
    requires
        n + k <= u64::MAX,
    ensures
        advance_by(n, k) == n + k,
        forall|i: nat| i <= k ==> #[trigger] advance_by(n, i) == n + i,
        forall|i: nat, j: nat|
            i < j <= k ==> request_id(#[trigger] advance_by(n, i) as nat) != request_id(
                #[trigger] advance_by(n, j) as nat,
            ),
{
    lemma_advance_by(n, k);
    assert forall|i: nat| i <= k implies #[trigger] advance_by(n, i) == n + i by {
        lemma_advance_by(n, i);
    }
    assert forall|i: nat, j: nat| i < j <= k implies request_id(
        #[trigger] advance_by(n, i) as nat,
    ) != request_id(#[trigger] advance_by(n, j) as nat) by {
        lemma_advance_by(n, i);
        lemma_advance_by(n, j);
        law_request_ids_distinct(advance_by(n, i) as nat, advance_by(n, j) as nat);
    }
}

/// herdr JSON-API control client: the socket it talks to, the id registries
/// and the request-id counter.
pub struct HerdrControl {
    api_socket: String,
    panes: HerdrPaneRegistry,
    tabs: HerdrTabRegistry,
    next_req_id: u64,
    read_timeout_secs: u64,
}

impl HerdrControl {
    /// The path of herdr's JSON-API socket.
    pub closed spec fn socket(&self) -> Seq<char> {
        self.api_socket@
    }

    /// The pane-id registry.
    pub closed spec fn panes(&self) -> HerdrPaneRegistry {
        self.panes
    }

    /// The tab-id registry.
    pub closed spec fn tabs(&self) -> HerdrTabRegistry {
        self.tabs
    }

    /// The number the next request id carries.
    pub closed spec fn next_request(&self) -> u64 {
        self.next_req_id
    }

    /// The per-call timeout in seconds.
    pub closed spec fn timeout_secs(&self) -> u64 {
        self.read_timeout_secs
    }

    /// `new` is `old` after issuing one request: the counter advanced, all
    /// else unchanged.
    pub open spec fn issued_from(new: HerdrControl, old: HerdrControl) -> bool {
        &&& new.next_request() == advance(old.next_request())
        &&& new.panes() == old.panes()
        &&& new.tabs() == old.tabs()
        &&& new.socket() == old.socket()
        &&& new.timeout_secs() == old.timeout_secs()
    }

    /// `r` is a request for `method` carrying the id numbered `n`.
    pub open spec fn request_for(r: ApiRequest, n: u64, method: Seq<char>) -> bool {
        r.id@ == request_id(n as nat) && r.method@ == method
    }

    /// Construct a control client for the herdr instance at `api_socket`,
    /// holding the given registries. Request ids start at 1.
    pub fn new(api_socket: String, panes: HerdrPaneRegistry, tabs: HerdrTabRegistry) -> (r: Self)
        ensures
            r.socket() == api_socket@,
            r.panes() == panes,
            r.tabs() == tabs,
            r.next_request() == 1,
            r.timeout_secs() == READ_TIMEOUT_SECS,
    {
        HerdrControl { api_socket, panes, tabs, next_req_id: 1, read_timeout_secs: READ_TIMEOUT_SECS }
    }

    /// The path of herdr's JSON-API socket.
    pub fn api_socket(&self) -> (r: &str)
        ensures
            r@ == self.socket(),
    {
        self.api_socket.as_str()
    }

    /// The per-call read/write timeout in seconds.
    pub fn read_timeout_secs(&self) -> (r: u64)
        ensures
            r == self.timeout_secs(),
    {
        self.read_timeout_secs
    }

    /// The pane registry (the wire relay resolves `u32 -> terminal_id` here).
    pub fn pane_registry(&self) -> (r: &HerdrPaneRegistry)
        ensures
            *r == self.panes(),
    {
        &self.panes
    }

    /// The tab registry (neutral `u64` tab ids to herdr tab ids).
    pub fn tab_registry(&self) -> (r: &HerdrTabRegistry)
        ensures
            *r == self.tabs(),
    {
        &self.tabs
    }

    /// The next request id, e.g. `"muxrd-7"`.
    fn next_id(&mut self) -> (r: String)
        ensures
            r@ == request_id(old(self).next_request() as nat),
            Self::issued_from(*final(self), *old(self)),
    {
        let n = self.next_req_id;
        self.next_req_id = if n == u64::MAX {
            0
        } else {
            n + 1
        };
        let mut s = String::new();
        push_str(&mut s, "muxrd-");
        push_decimal(&mut s, n);
        s
    }

    fn request(&mut self, method: &str, params: ApiParams) -> (r: ApiRequest)
        ensures
            Self::request_for(r, old(self).next_request(), method@),
            r.params == params,
            Self::issued_from(*final(self), *old(self)),
    {
        let id = self.next_id();
        ApiRequest::new(id, method.to_owned(), params)
    }

    // ── Workspace lifecycle ─────────────────────────────────────────────────

    /// `workspace.list` — all herdr workspaces.
    pub fn list_workspaces(&mut self) -> (r: ApiRequest)
        ensures
            Self::request_for(r, old(self).next_request(), "workspace.list"@),
            r.params == ApiParams::WorkspaceList(WorkspaceListParams {  }),
            Self::issued_from(*final(self), *old(self)),
    {
        self.request("workspace.list", ApiParams::WorkspaceList(WorkspaceListParams {  }))
    }

    /// `workspace.create` — create and focus a new workspace.
    pub fn create_workspace(&mut self, label: Option<String>) -> (r: ApiRequest)
        ensures
            Self::request_for(r, old(self).next_request(), "workspace.create"@),
            r.params matches ApiParams::WorkspaceCreate(p) && p.focus && p.cwd is None && p.label
                == label && p.env.len() == 0,
            Self::issued_from(*final(self), *old(self)),
    {
        let params = WorkspaceCreateParams { cwd: None, focus: true, label, env: Vec::new() };
        self.request("workspace.create", ApiParams::WorkspaceCreate(params))
    }

    /// `workspace.rename`.
    pub fn rename_workspace(&mut self, workspace_id: &str, label: &str) -> (r: ApiRequest)
        ensures
            Self::request_for(r, old(self).next_request(), "workspace.rename"@),
            r.params matches ApiParams::WorkspaceRename(p) && p.workspace_id@ == workspace_id@
                && p.label@ == label@,
            Self::issued_from(*final(self), *old(self)),
    {
        let params = WorkspaceRenameParams {
            workspace_id: workspace_id.to_owned(),
            label: label.to_owned(),
        };
        self.request("workspace.rename", ApiParams::WorkspaceRename(params))
    }

    /// `workspace.close`.
    pub fn close_workspace(&mut self, workspace_id: &str) -> (r: ApiRequest)
        ensures
            Self::request_for(r, old(self).next_request(), "workspace.close"@),
            r.params matches ApiParams::WorkspaceClose(p) && p.workspace_id@ == workspace_id@,
            Self::issued_from(*final(self), *old(self)),
    {
        let params = WorkspaceCloseParams { workspace_id: workspace_id.to_owned() };
        self.request("workspace.close", ApiParams::WorkspaceClose(params))
    }

    // ── Tab lifecycle ───────────────────────────────────────────────────────

    /// `tab.create` in the given workspace (or the focused one when `None`).
    pub fn create_tab(&mut self, workspace_id: Option<&str>, label: Option<String>) -> (r:
        ApiRequest)
        ensures
            Self::request_for(r, old(self).next_request(), "tab.create"@),
            r.params matches ApiParams::TabCreate(p) && p.focus && p.cwd is None && p.label == label
                && p.env.len() == 0 && opt_view(p.workspace_id) == opt_str_view(workspace_id),
            Self::issued_from(*final(self), *old(self)),
    {
        let params = TabCreateParams {
            workspace_id: owned_opt(workspace_id),
            cwd: None,
            focus: true,
            label,
            env: Vec::new(),
        };
        self.request("tab.create", ApiParams::TabCreate(params))
    }

    /// `tab.focus` — the neutral tab id is resolved through the tab registry.
    pub fn focus_tab(&mut self, tab_id: u64) -> (r: Result<ApiRequest, ActionAck>)
        ensures
            Self::tab_call(*old(self), *final(self), tab_id, r, "tab.focus"@),
            r matches Ok(req) ==> (req.params matches ApiParams::TabFocus(p) && p.tab_id@
                == old(self).tabs().entries()[tab_id]),
    {
        match self.tabs.herdr_tab_id(tab_id) {
            None => Err(unknown_tab(tab_id)),
            Some(herdr_tab) => Ok(
                self.request("tab.focus", ApiParams::TabFocus(TabFocusParams { tab_id: herdr_tab })),
            ),
        }
    }

    /// `tab.close`.
    pub fn close_tab(&mut self, tab_id: u64) -> (r: Result<ApiRequest, ActionAck>)
        ensures
            Self::tab_call(*old(self), *final(self), tab_id, r, "tab.close"@),
            r matches Ok(req) ==> (req.params matches ApiParams::TabClose(p) && p.tab_id@
                == old(self).tabs().entries()[tab_id]),
    {
        match self.tabs.herdr_tab_id(tab_id) {
            None => Err(unknown_tab(tab_id)),
            Some(herdr_tab) => Ok(
                self.request("tab.close", ApiParams::TabClose(TabCloseParams { tab_id: herdr_tab })),
            ),
        }
    }

    /// `tab.rename`.
    pub fn rename_tab(&mut self, tab_id: u64, label: String) -> (r: Result<ApiRequest, ActionAck>)
        ensures
            Self::tab_call(*old(self), *final(self), tab_id, r, "tab.rename"@),
            r matches Ok(req) ==> (req.params matches ApiParams::TabRename(p) && p.tab_id@
                == old(self).tabs().entries()[tab_id] && p.label == label),
    {
        match self.tabs.herdr_tab_id(tab_id) {
            None => Err(unknown_tab(tab_id)),
            Some(herdr_tab) => Ok(
                self.request(
                    "tab.rename",
                    ApiParams::TabRename(TabRenameParams { tab_id: herdr_tab, label }),
                ),
            ),
        }
    }

    /// A call addressed by a neutral tab id: a known id issues a request for
    /// `method`; an unknown one is refused with the unknown-tab ack and
    /// issues nothing.
    pub open spec fn tab_call(
        old: HerdrControl,
        new: HerdrControl,
        tab_id: u64,
        r: Result<ApiRequest, ActionAck>,
        method: Seq<char>,
    ) -> bool {
        if old.tabs().entries().contains_key(tab_id) {
            r is Ok && Self::request_for(r->Ok_0, old.next_request(), method) && Self::issued_from(
                new,
                old,
            )
        } else {
            r is Err && is_unknown_tab_ack(r->Err_0, tab_id) && new == old
        }
    }

    /// A call addressed by a neutral pane id: a known id issues a request
    /// for `method`; an unknown one is refused with the unknown-pane ack and
    /// issues nothing.
    pub open spec fn pane_call(
        old: HerdrControl,
        new: HerdrControl,
        pane: u32,
        r: Result<ApiRequest, ActionAck>,
        method: Seq<char>,
    ) -> bool {
        if old.panes().entries().contains_key(pane) {
            r is Ok && Self::request_for(r->Ok_0, old.next_request(), method) && Self::issued_from(
                new,
                old,
            )
        } else {
            r is Err && is_unknown_pane_ack(r->Err_0, pane) && new == old
        }
    }

    /// A call addressed by an optional neutral pane id (`None` targets the
    /// focused pane and always issues the request).
    pub open spec fn opt_pane_call(
        old: HerdrControl,
        new: HerdrControl,
        pane: Option<u32>,
        r: Result<ApiRequest, ActionAck>,
        method: Seq<char>,
    ) -> bool {
        match pane {
            Some(id) => Self::pane_call(old, new, id, r, method),
            None => r is Ok && Self::request_for(r->Ok_0, old.next_request(), method)
                && Self::issued_from(new, old),
        }
    }

    /// The herdr pane id an optional neutral pane id resolves to.
    pub open spec fn resolved_pane(old: HerdrControl, pane: Option<u32>) -> Option<Seq<char>> {
        match pane {
            Some(id) => Some(old.panes().entries()[id].0),
            None => None,
        }
    }

    /// Resolve an optional neutral pane id to an optional herdr `pane_id`;
    /// an unknown id is reported as a failed ack.
    fn resolve_opt_pane(&self, pane: Option<u32>) -> (r: Result<Option<String>, ActionAck>)
        ensures
            match pane {
                None => r == Ok::<Option<String>, ActionAck>(None),
                Some(id) => if self.panes().entries().contains_key(id) {
                    r is Ok && r->Ok_0 is Some && r->Ok_0->0@ == self.panes().entries()[id].0
                } else {
                    r is Err && is_unknown_pane_ack(r->Err_0, id)
                },
            },
    {
        match pane {
            None => Ok(None),
            Some(id) => match self.panes.herdr_pane_id(id) {
                Some(p) => Ok(Some(p)),
                None => Err(unknown_pane(id)),
            },
        }
    }

    // ── Pane lifecycle ──────────────────────────────────────────────────────

    /// `pane.split` — split `target` (or the focused pane when `None`).
    pub fn split_pane(
        &mut self,
        workspace_id: Option<&str>,
        target: Option<u32>,
        direction: SplitDirection,
        focus: bool,
    ) -> (r: Result<ApiRequest, ActionAck>)
        ensures
            Self::opt_pane_call(*old(self), *final(self), target, r, "pane.split"@),
            r matches Ok(req) ==> (req.params matches ApiParams::PaneSplit(p) && opt_view(
                p.target_pane_id,
            ) == Self::resolved_pane(*old(self), target) && opt_view(p.workspace_id)
                == opt_str_view(workspace_id) && p.direction == direction && p.focus == focus
                && p.ratio_bits is None && p.cwd is None && p.env.len() == 0),
    {
        let target_pane_id = match self.resolve_opt_pane(target) {
            Ok(p) => p,
            Err(ack) => return Err(ack),
        };
        let params = PaneSplitParams {
            workspace_id: owned_opt(workspace_id),
            target_pane_id,
            direction,
            ratio_bits: None,
            cwd: None,
            focus,
            env: Vec::new(),
        };
        Ok(self.request("pane.split", ApiParams::PaneSplit(params)))
    }

    /// `pane.close`.
    pub fn close_pane(&mut self, pane: u32) -> (r: Result<ApiRequest, ActionAck>)
        ensures
            Self::pane_call(*old(self), *final(self), pane, r, "pane.close"@),
            r matches Ok(req) ==> (req.params matches ApiParams::PaneClose(p) && p.pane_id@
                == old(self).panes().entries()[pane].0),
    {
        match self.panes.herdr_pane_id(pane) {
            None => Err(unknown_pane(pane)),
            Some(pane_id) => Ok(
                self.request("pane.close", ApiParams::PaneClose(PaneCloseParams { pane_id })),
            ),
        }
    }

    /// `pane.rename`.
    pub fn rename_pane(&mut self, pane: u32, label: Option<String>) -> (r: Result<
        ApiRequest,
        ActionAck,
    >)
        ensures
            Self::pane_call(*old(self), *final(self), pane, r, "pane.rename"@),
            r matches Ok(req) ==> (req.params matches ApiParams::PaneRename(p) && p.pane_id@
                == old(self).panes().entries()[pane].0 && p.label == label),
    {
        match self.panes.herdr_pane_id(pane) {
            None => Err(unknown_pane(pane)),
            Some(pane_id) => Ok(
                self.request(
                    "pane.rename",
                    ApiParams::PaneRename(PaneRenameParams { pane_id, label }),
                ),
            ),
        }
    }

    /// `pane.focus_direction` — directional focus from `pane` (or the focused
    /// pane).
    pub fn focus_pane_direction(&mut self, pane: Option<u32>, direction: PaneDirection) -> (r:
        Result<ApiRequest, ActionAck>)
        ensures
            Self::opt_pane_call(*old(self), *final(self), pane, r, "pane.focus_direction"@),
            r matches Ok(req) ==> (req.params matches ApiParams::PaneFocusDirection(p) && opt_view(
                p.pane_id,
            ) == Self::resolved_pane(*old(self), pane) && p.direction == direction),
    {
        let pane_id = match self.resolve_opt_pane(pane) {
            Ok(p) => p,
            Err(ack) => return Err(ack),
        };
        Ok(
            self.request(
                "pane.focus_direction",
                ApiParams::PaneFocusDirection(PaneFocusDirectionParams { pane_id, direction }),
            ),
        )
    }

    /// `pane.zoom` — herdr's analogue of pane fullscreen.
    pub fn zoom_pane(&mut self, pane: Option<u32>, mode: PaneZoomMode) -> (r: Result<
        ApiRequest,
        ActionAck,
    >)
        ensures
            Self::opt_pane_call(*old(self), *final(self), pane, r, "pane.zoom"@),
            r matches Ok(req) ==> (req.params matches ApiParams::PaneZoom(p) && opt_view(p.pane_id)
                == Self::resolved_pane(*old(self), pane) && p.mode == mode),
    {
        let pane_id = match self.resolve_opt_pane(pane) {
            Ok(p) => p,
            Err(ack) => return Err(ack),
        };
        Ok(self.request("pane.zoom", ApiParams::PaneZoom(PaneZoomParams { pane_id, mode })))
    }

    // ── Read-only queries ───────────────────────────────────────────────────

    /// `tab.list` for a workspace.
    pub fn list_tabs(&mut self, workspace_id: &str) -> (r: ApiRequest)
        ensures
            Self::request_for(r, old(self).next_request(), "tab.list"@),
            r.params matches ApiParams::TabList(p) && p.workspace_id is Some
                && p.workspace_id->0@ == workspace_id@,
            Self::issued_from(*final(self), *old(self)),
    {
        let params = WorkspaceScopedParams { workspace_id: Some(workspace_id.to_owned()) };
        self.request("tab.list", ApiParams::TabList(params))
    }

    /// `pane.list` for a workspace (yields each pane's `terminal_id`).
    pub fn list_panes(&mut self, workspace_id: &str) -> (r: ApiRequest)
        ensures
            Self::request_for(r, old(self).next_request(), "pane.list"@),
            r.params matches ApiParams::PaneList(p) && p.workspace_id is Some
                && p.workspace_id->0@ == workspace_id@,
            Self::issued_from(*final(self), *old(self)),
    {
        let params = WorkspaceScopedParams { workspace_id: Some(workspace_id.to_owned()) };
        self.request("pane.list", ApiParams::PaneList(params))
    }

    /// `pane.layout` — the absolute-cell layout of the tab containing
    /// `pane_id` (or the focused tab when `None`).
    pub fn pane_layout(&mut self, pane_id: Option<&str>) -> (r: ApiRequest)
        ensures
            Self::request_for(r, old(self).next_request(), "pane.layout"@),
            r.params matches ApiParams::PaneLayout(p) && opt_view(p.pane_id) == opt_str_view(
                pane_id,
            ),
            Self::issued_from(*final(self), *old(self)),
    {
        let params = PaneLayoutParams { pane_id: owned_opt(pane_id) };
        self.request("pane.layout", ApiParams::PaneLayout(params))
    }

    /// `layout.export` — the recursive layout description of a tab or pane.
    pub fn layout_export(&mut self, tab_id: Option<&str>, pane_id: Option<&str>) -> (r: ApiRequest)
        ensures
            Self::request_for(r, old(self).next_request(), "layout.export"@),
            r.params matches ApiParams::LayoutExport(p) && opt_view(p.tab_id) == opt_str_view(
                tab_id,
            ) && opt_view(p.pane_id) == opt_str_view(pane_id),
            Self::issued_from(*final(self), *old(self)),
    {
        let params = LayoutExportParams { tab_id: owned_opt(tab_id), pane_id: owned_opt(pane_id) };
        self.request("layout.export", ApiParams::LayoutExport(params))
    }

    /// Build the neutral layout of workspace `workspace_id` from the replies
    /// of `workspace.list`, `tab.list`, `pane.list` and the `pane.layout`
    /// calls (see [`next_layout_target`]), registering every pane and tab.
    /// The active tab is the workspace's own `active_tab_id` (empty when the
    /// workspace is not listed).
    pub fn query_layout(
        &mut self,
        workspace_id: &str,
        workspaces: &Vec<WorkspaceInfo>,
        tabs: &Vec<TabInfo>,
        panes: &Vec<PaneInfo>,
        layouts: &Vec<PaneLayoutSnapshot>,
    ) -> (snap: LayoutSnapshot)
        ensures
            snap.tabs.len() == tabs.len(),
            forall|i: int|
                0 <= i < tabs.len() ==> #[trigger] tab_matches(
                    snap.tabs@[i],
                    tabs@[i],
                    layouts@,
                    panes@,
                    active_tab_of(workspaces@, workspace_id@),
                    final(self).tabs().ids(),
                    final(self).panes().ids(),
                ),
            final(self).panes().model() == pane_steps(
                old(self).panes().model(),
                transcode_regs(tabs@, panes@, layouts@),
            ),
            final(self).tabs().model() == tab_steps(old(self).tabs().model(), tab_keys(tabs@)),
            old(self).panes().consistent() && final(self).panes().next() < u32::MAX ==> {
                &&& final(self).panes().consistent()
                &&& forall|i: int|
                    0 <= i < panes.len() ==> #[trigger] final(self).panes().entries()[final(self).panes().ids()[panes@[i].pane_id@]]
                        == (panes@[i].pane_id@, pane_term(info_for(panes@, panes@[i].pane_id@)))
            },
            old(self).tabs().consistent() && final(self).tabs().next() < u64::MAX ==> {
                &&& final(self).tabs().consistent()
                &&& forall|i: int|
                    0 <= i < tabs.len() ==> #[trigger] final(self).tabs().entries()[final(self).tabs().ids()[tabs@[i].tab_id@]]
                        == tabs@[i].tab_id@
            },
            final(self).next_request() == old(self).next_request(),
            final(self).socket() == old(self).socket(),
            final(self).timeout_secs() == old(self).timeout_secs(),
    {
        let active = workspace_active_tab(workspaces, workspace_id);
        transcode_layout(tabs, panes, layouts, active.as_str(), &mut self.panes, &mut self.tabs)
    }

    /// The pane an attach to workspace `workspace_id` follows, from its
    /// `pane.list` reply: the `(u32 pane id, terminal_id)` of the focused
    /// pane, else the first listed; every listed pane is registered.
    pub fn attach_target(&mut self, panes: &Vec<PaneInfo>, workspace_id: &str) -> (r: Result<
        (u32, String),
        String,
    >)
        ensures
            map_extends(old(self).panes().ids(), final(self).panes().ids()),
            forall|i: int|
                0 <= i < panes.len() ==> final(self).panes().ids().contains_key(
                    #[trigger] panes@[i].pane_id@,
                ),
            match attach_index(panes@) {
                Some(k) => r is Ok && r->Ok_0.0 == final(self).panes().ids()[panes@[k].pane_id@]
                    && r->Ok_0.1@ == panes@[k].terminal_id@,
                None => r is Err && r->Err_0@ == "herdr workspace '"@ + workspace_id@
                    + "' has no panes to attach"@,
            },
            final(self).panes().model() == pane_steps(old(self).panes().model(), listed_regs(panes@)),
            old(self).panes().consistent() && final(self).panes().next() < u32::MAX ==> {
                &&& final(self).panes().consistent()
                &&& forall|i: int|
                    0 <= i < panes.len() ==> #[trigger] final(self).panes().entries()[final(self).panes().ids()[panes@[i].pane_id@]]
                        == (panes@[i].pane_id@, pane_term(info_for(panes@, panes@[i].pane_id@)))
            },
            final(self).tabs() == old(self).tabs(),
            final(self).next_request() == old(self).next_request(),
            final(self).socket() == old(self).socket(),
            final(self).timeout_secs() == old(self).timeout_secs(),
    {
        resolve_focused_terminal(panes, &mut self.panes, workspace_id)
    }
}

/// The views of an optional owned string.
pub open spec fn opt_view(o: Option<String>) -> Option<Seq<char>> {
    match o {
        Some(s) => Some(s@),
        None => None,
    }
}

/// The views of an optional borrowed string.
pub open spec fn opt_str_view(o: Option<&str>) -> Option<Seq<char>> {
    match o {
        Some(s) => Some(s@),
        None => None,
    }
}

fn owned_opt(o: Option<&str>) -> (r: Option<String>)
    ensures
        opt_view(r) == opt_str_view(o),
{
    match o {
        Some(s) => Some(s.to_owned()),
        None => None,
    }
}

// ─── ActionAck helpers ───────────────────────────────────────────────────────

/// The successful ack.
pub fn ack_ok() -> (r: ActionAck)
    ensures
        r.ok && r.error is None && r.info is None,
{
    ActionAck { ok: true, error: None, info: None }
}

/// A failed ack carrying `message`.
pub fn ack_err(message: String) -> (r: ActionAck)
    ensures
        r == (ActionAck { ok: false, error: Some(message), info: None }),
{
    ActionAck { ok: false, error: Some(message), info: None }
}

/// `a` is the failed ack of an unknown pane id: `"unknown herdr pane id <id>"`.
pub open spec fn is_unknown_pane_ack(a: ActionAck, id: u32) -> bool {
    !a.ok && a.info is None && a.error is Some && a.error->0@ == "unknown herdr pane id "@
        + decimal(id as nat)
}

/// `a` is the failed ack of an unknown tab id: `"unknown herdr tab id <id>"`.
pub open spec fn is_unknown_tab_ack(a: ActionAck, id: u64) -> bool {
    !a.ok && a.info is None && a.error is Some && a.error->0@ == "unknown herdr tab id "@
        + decimal(id as nat)
}

/// The failed ack for an unknown neutral pane id.
pub fn unknown_pane(id: u32) -> (r: ActionAck)
    ensures
        is_unknown_pane_ack(r, id),
{
    let mut m = String::new();
    push_str(&mut m, "unknown herdr pane id ");
    push_decimal(&mut m, id as u64);
    ack_err(m)
}

/// The failed ack for an unknown neutral tab id.
pub fn unknown_tab(id: u64) -> (r: ActionAck)
    ensures
        is_unknown_tab_ack(r, id),
{
    let mut m = String::new();
    push_str(&mut m, "unknown herdr tab id ");
    push_decimal(&mut m, id);
    ack_err(m)
}

// ─── Reply interpretation ────────────────────────────────────────────────────

/// The text of a herdr API-level error on a typed call.
pub open spec fn api_error_text(method: Seq<char>, e: ApiErrorBody) -> Seq<char> {
    "herdr "@ + method + " error "@ + e.code@ + ": "@ + e.message@
}

/// The text of a success payload that matched no known result shape.
pub open spec fn decode_error_text(method: Seq<char>) -> Seq<char> {
    "decode herdr "@ + method + " result"@
}

/// The leading text of a result of the wrong kind (followed by its debug
/// rendering).
pub open spec fn unexpected_prefix(method: Seq<char>) -> Seq<char> {
    "herdr "@ + method + " returned unexpected result: "@
}

/// The reply of an action method as an ack: success is ok (its payload is
/// ignored); a herdr API error becomes a failed ack `"<code>: <message>"`.
pub fn action_ack(body: ApiResponseBody) -> (r: ActionAck)
    ensures
        match body {
            ApiResponseBody::Success { .. } => r.ok && r.error is None && r.info is None,
            ApiResponseBody::Failure { error } => !r.ok && r.info is None && r.error is Some
                && r.error->0@ == error.code@ + ": "@ + error.message@,
        },
{
    match body {
        ApiResponseBody::Success { .. } => ack_ok(),
        ApiResponseBody::Failure { error } => {
            let mut m = error.code;
            push_str(&mut m, ": ");
            push_str(&mut m, error.message.as_str());
            ack_err(m)
        },
    }
}

/// `r` is the failure of a typed call whose reply carried no usable result.
pub open spec fn typed_failure<T>(method: Seq<char>, body: ApiResponseBody, r: Result<T, String>) -> bool {
    match body {
        ApiResponseBody::Success { result: None } => r is Err && r->Err_0@ == decode_error_text(
            method,
        ),
        ApiResponseBody::Failure { error } => r is Err && r->Err_0@ == api_error_text(
            method,
            error,
        ),
        _ => true,
    }
}

/// The typed result of a call to `method`, or the error text.
pub fn typed_result(method: &str, body: ApiResponseBody) -> (r: Result<ApiResult, String>)
    ensures
        match body {
            ApiResponseBody::Success { result: Some(x) } => r == Ok::<ApiResult, String>(x),
            _ => typed_failure(method@, body, r),
        },
{
    match body {
        ApiResponseBody::Success { result: Some(x) } => Ok(x),
        ApiResponseBody::Success { result: None } => {
            let mut m = String::new();
            push_str(&mut m, "decode herdr ");
            push_str(&mut m, method);
            push_str(&mut m, " result");
            Err(m)
        },
        ApiResponseBody::Failure { error } => {
            let mut m = String::new();
            push_str(&mut m, "herdr ");
            push_str(&mut m, method);
            push_str(&mut m, " error ");
            push_str(&mut m, error.code.as_str());
            push_str(&mut m, ": ");
            push_str(&mut m, error.message.as_str());
            Err(m)
        },
    }
}

/// The debug rendering of a result (`{:?}`); nothing is stated of its text.
#[verifier::external_body]
fn debug_text(result: &ApiResult) -> String {
    format!("{result:?}")
}

fn unexpected(method: &str, result: &ApiResult) -> (r: String)
    ensures
        unexpected_prefix(method@).is_prefix_of(r@),
{
    let mut m = String::new();
    push_str(&mut m, "herdr ");
    push_str(&mut m, method);
    push_str(&mut m, " returned unexpected result: ");
    let ghost prefix = m@;
    let d = debug_text(result);
    push_str(&mut m, d.as_str());
    assert(prefix =~= unexpected_prefix(method@));
    assert(m@.subrange(0, prefix.len() as int) =~= prefix);
    m
}

/// The workspaces of a `workspace.list` reply.
pub fn expect_workspace_list(body: ApiResponseBody) -> (r: Result<Vec<WorkspaceInfo>, String>)
    ensures
        match body {
            ApiResponseBody::Success { result: Some(ApiResult::WorkspaceList { workspaces }) } => r
                == Ok::<Vec<WorkspaceInfo>, String>(workspaces),
            ApiResponseBody::Success { result: Some(_) } => r is Err && unexpected_prefix(
                "workspace.list"@,
            ).is_prefix_of(r->Err_0@),
            _ => typed_failure("workspace.list"@, body, r),
        },
{
    match typed_result("workspace.list", body) {
        Ok(ApiResult::WorkspaceList { workspaces }) => Ok(workspaces),
        Ok(other) => Err(unexpected("workspace.list", &other)),
        Err(e) => Err(e),
    }
}

/// The tabs of a `tab.list` reply.
pub fn expect_tab_list(body: ApiResponseBody) -> (r: Result<Vec<TabInfo>, String>)
    ensures
        match body {
            ApiResponseBody::Success { result: Some(ApiResult::TabList { tabs }) } => r == Ok::<
                Vec<TabInfo>,
                String,
            >(tabs),
            ApiResponseBody::Success { result: Some(_) } => r is Err && unexpected_prefix(
                "tab.list"@,
            ).is_prefix_of(r->Err_0@),
            _ => typed_failure("tab.list"@, body, r),
        },
{
    match typed_result("tab.list", body) {
        Ok(ApiResult::TabList { tabs }) => Ok(tabs),
        Ok(other) => Err(unexpected("tab.list", &other)),
        Err(e) => Err(e),
    }
}

/// The panes of a `pane.list` reply.
pub fn expect_pane_list(body: ApiResponseBody) -> (r: Result<Vec<PaneInfo>, String>)
    ensures
        match body {
            ApiResponseBody::Success { result: Some(ApiResult::PaneList { panes }) } => r == Ok::<
                Vec<PaneInfo>,
                String,
            >(panes),
            ApiResponseBody::Success { result: Some(_) } => r is Err && unexpected_prefix(
                "pane.list"@,
            ).is_prefix_of(r->Err_0@),
            _ => typed_failure("pane.list"@, body, r),
        },
{
    match typed_result("pane.list", body) {
        Ok(ApiResult::PaneList { panes }) => Ok(panes),
        Ok(other) => Err(unexpected("pane.list", &other)),
        Err(e) => Err(e),
    }
}

/// The tab layout of a `pane.layout` reply.
pub fn expect_pane_layout(body: ApiResponseBody) -> (r: Result<PaneLayoutSnapshot, String>)
    ensures
        match body {
            ApiResponseBody::Success { result: Some(ApiResult::PaneLayout { layout }) } => r
                == Ok::<PaneLayoutSnapshot, String>(layout),
            ApiResponseBody::Success { result: Some(_) } => r is Err && unexpected_prefix(
                "pane.layout"@,
            ).is_prefix_of(r->Err_0@),
            _ => typed_failure("pane.layout"@, body, r),
        },
{
    match typed_result("pane.layout", body) {
        Ok(ApiResult::PaneLayout { layout }) => Ok(layout),
        Ok(other) => Err(unexpected("pane.layout", &other)),
        Err(e) => Err(e),
    }
}

/// The layout description of a `layout.export` reply.
pub fn expect_layout_export(body: ApiResponseBody) -> (r: Result<LayoutDescription, String>)
    ensures
        match body {
            ApiResponseBody::Success { result: Some(ApiResult::LayoutExport { layout }) } => r
                == Ok::<LayoutDescription, String>(layout),
            ApiResponseBody::Success { result: Some(_) } => r is Err && unexpected_prefix(
                "layout.export"@,
            ).is_prefix_of(r->Err_0@),
            _ => typed_failure("layout.export"@, body, r),
        },
{
    match typed_result("layout.export", body) {
        Ok(ApiResult::LayoutExport { layout }) => Ok(layout),
        Ok(other) => Err(unexpected("layout.export", &other)),
        Err(e) => Err(e),
    }
}

// ─── Layout query planning ───────────────────────────────────────────────────

/// `i` is the first listed workspace with id `id`.
pub open spec fn is_workspace_at(ws: Seq<WorkspaceInfo>, id: Seq<char>, i: int) -> bool {
    &&& 0 <= i < ws.len()
    &&& ws[i].workspace_id@ == id
    &&& forall|j: int| 0 <= j < i ==> ws[j].workspace_id@ != id
}

/// The workspace's own active tab id (empty when it is not listed).
pub open spec fn active_tab_of(ws: Seq<WorkspaceInfo>, id: Seq<char>) -> Seq<char> {
    if exists|i: int| is_workspace_at(ws, id, i) {
        ws[choose|i: int| is_workspace_at(ws, id, i)].active_tab_id@
    } else {
        Seq::empty()
    }
}

/// The active tab id of workspace `workspace_id` (see [`active_tab_of`]).
pub fn workspace_active_tab(workspaces: &Vec<WorkspaceInfo>, workspace_id: &str) -> (r: String)
    ensures
        r@ == active_tab_of(workspaces@, workspace_id@),
{
    let mut i: usize = 0;
    while i < workspaces.len()
        invariant
            0 <= i <= workspaces.len(),
            forall|j: int| 0 <= j < i ==> workspaces@[j].workspace_id@ != workspace_id@,
        decreases workspaces.len() - i,
    {
        if str_eq(workspaces[i].workspace_id.as_str(), workspace_id) {
            proof {
                assert(is_workspace_at(workspaces@, workspace_id@, i as int));
                let k = choose|k: int| is_workspace_at(workspaces@, workspace_id@, k);
                if k < i {
                } else if k > i {
                    assert(workspaces@[i as int].workspace_id@ != workspace_id@);
                }
            }
            return workspaces[i].active_tab_id.clone();
        }
        i = i + 1;
    }
    String::new()
}

/// `p` is the first listed pane of tab `tab_id` (its representative).
pub open spec fn is_first_pane(panes: Seq<PaneInfo>, tab_id: Seq<char>, p: int) -> bool {
    &&& 0 <= p < panes.len()
    &&& panes[p].tab_id@ == tab_id
    &&& forall|j: int| 0 <= j < p ==> panes[j].tab_id@ != tab_id
}

/// Tab `t` still needs a geometry query: no fetched layout has its id and
/// one of its panes is listed.
pub open spec fn needs_layout(
    tabs: Seq<TabInfo>,
    panes: Seq<PaneInfo>,
    layouts: Seq<PaneLayoutSnapshot>,
    t: int,
) -> bool {
    &&& forall|k: int| 0 <= k < layouts.len() ==> layouts[k].tab_id@ != tabs[t].tab_id@
    &&& exists|p: int| 0 <= p < panes.len() && panes[p].tab_id@ == tabs[t].tab_id@
}

fn has_layout(layouts: &Vec<PaneLayoutSnapshot>, tab_id: &str) -> (r: bool)
    ensures
        r == exists|k: int| 0 <= k < layouts@.len() && layouts@[k].tab_id@ == tab_id@,
{
    let mut k: usize = 0;
    while k < layouts.len()
        invariant
            0 <= k <= layouts.len(),
            forall|j: int| 0 <= j < k ==> layouts@[j].tab_id@ != tab_id@,
        decreases layouts.len() - k,
    {
        if str_eq(layouts[k].tab_id.as_str(), tab_id) {
            return true;
        }
        k = k + 1;
    }
    false
}

fn first_pane(panes: &Vec<PaneInfo>, tab_id: &str) -> (r: Option<usize>)
    ensures
        match r {
            Some(p) => is_first_pane(panes@, tab_id@, p as int),
            None => forall|p: int| 0 <= p < panes@.len() ==> panes@[p].tab_id@ != tab_id@,
        },
{
    let mut p: usize = 0;
    while p < panes.len()
        invariant
            0 <= p <= panes.len(),
            forall|j: int| 0 <= j < p ==> panes@[j].tab_id@ != tab_id@,
        decreases panes.len() - p,
    {
        if str_eq(panes[p].tab_id.as_str(), tab_id) {
            return Some(p);
        }
        p = p + 1;
    }
    None
}

/// The next `pane.layout` call of a layout query, scanning tabs from index
/// `from`: the first tab that still needs geometry, with the id of its
/// representative (first listed) pane. The caller appends each fetched
/// layout and resumes after the returned tab.
pub fn next_layout_target(
    tabs: &Vec<TabInfo>,
    panes: &Vec<PaneInfo>,
    layouts: &Vec<PaneLayoutSnapshot>,
    from: usize,
) -> (r: Option<(usize, String)>)
    ensures
        match r {
            Some((t, pane_id)) => {
                &&& from <= t < tabs.len()
                &&& needs_layout(tabs@, panes@, layouts@, t as int)
                &&& forall|u: int| from <= u < t ==> !needs_layout(tabs@, panes@, layouts@, u)
                &&& exists|p: int|
                    is_first_pane(panes@, tabs@[t as int].tab_id@, p) && panes@[p].pane_id@
                        == pane_id@
            },
            None => forall|u: int|
                from <= u < tabs.len() ==> !needs_layout(tabs@, panes@, layouts@, u),
        },
{
    let mut t: usize = from;
    while t < tabs.len()
        invariant
            from <= t,
            forall|u: int| from <= u < t ==> !needs_layout(tabs@, panes@, layouts@, u),
        decreases tabs.len() - t,
    {
        let tab_id = tabs[t].tab_id.as_str();
        if !has_layout(layouts, tab_id) {
            match first_pane(panes, tab_id) {
                Some(p) => {
                    return Some((t, panes[p].pane_id.clone()));
                },
                None => {},
            }
        }
        t = t + 1;
    }
    None
}

} // verus!
