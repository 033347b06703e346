//! Types matching herdr's public line-delimited JSON control protocol.
//!
//! Requests carry a caller-assigned id, a dotted method name and typed
//! parameters; responses are either a typed result or an error body. JSON text
//! is produced and consumed at the socket edge; everything here is plain data.

use vstd::prelude::*;

verus! {

// ─── Request envelope ─────────────────────────────────────────────────────────

/// A JSON-API request: `{"id":…,"method":…,"params":{…}}`.
#[derive(Debug, Clone, PartialEq)]
pub struct ApiRequest {
    /// Caller-assigned request identifier (echoed in the response).
    pub id: String,
    /// Lowercase dotted method name (e.g. `"pane.layout"`).
    pub method: String,
    /// Method-specific parameters.
    pub params: ApiParams,
}

impl ApiRequest {
    /// Construct a request with the given id, method and params.
    pub fn new(id: String, method: String, params: ApiParams) -> (r: Self)
        ensures
            r.id == id,
            r.method == method,
            r.params == params,
    {
        ApiRequest { id, method, params }
    }
}

/// The typed parameter object of one request.
#[derive(Debug, Clone, PartialEq)]
pub enum ApiParams {
    WorkspaceList(WorkspaceListParams),
    WorkspaceCreate(WorkspaceCreateParams),
    WorkspaceRename(WorkspaceRenameParams),
    WorkspaceClose(WorkspaceCloseParams),
    TabCreate(TabCreateParams),
    TabFocus(TabFocusParams),
    TabClose(TabCloseParams),
    TabRename(TabRenameParams),
    TabList(WorkspaceScopedParams),
    PaneList(WorkspaceScopedParams),
    PaneSplit(PaneSplitParams),
    PaneClose(PaneCloseParams),
    PaneRename(PaneRenameParams),
    PaneFocusDirection(PaneFocusDirectionParams),
    PaneZoom(PaneZoomParams),
    PaneLayout(PaneLayoutParams),
    LayoutExport(LayoutExportParams),
}

// ─── Response envelope ───────────────────────────────────────────────────────

/// Response body: a success carrying a result, or a herdr API error.
///
/// `result` is `None` when the success payload did not match any known
/// [`ApiResult`] shape.
#[derive(Debug, PartialEq, Eq)]
pub enum ApiResponseBody {
    Success { result: Option<ApiResult> },
    Failure { error: ApiErrorBody },
}

/// Error information returned by herdr for a failed request.
#[derive(Debug, Clone, PartialEq, Eq)]
pub struct ApiErrorBody {
    pub code: String,
    pub message: String,
}

/// Typed result variants for the methods this crate calls.
#[derive(Debug, PartialEq, Eq)]
pub enum ApiResult {
    WorkspaceList { workspaces: Vec<WorkspaceInfo> },
    WorkspaceCreated { workspace: WorkspaceInfo, tab: TabInfo, root_pane: PaneInfo },
    WorkspaceInfo { workspace: WorkspaceInfo },
    TabCreated { tab: TabInfo, root_pane: PaneInfo },
    TabInfo { tab: TabInfo },
    TabList { tabs: Vec<TabInfo> },
    PaneInfo { pane: PaneInfo },
    PaneList { panes: Vec<PaneInfo> },
    PaneLayout { layout: PaneLayoutSnapshot },
    PaneFocusDirection { focus: PaneFocusDirectionResult },
    PaneZoom { zoom: PaneZoomResult },
    LayoutExport { layout: LayoutDescription },
    /// Generic success with no payload (herdr's `{"type":"ok"}`).
    Acknowledged,
}

// ─── Request param structs ────────────────────────────────────────────────────

/// `workspace.list` — no params.
#[derive(Debug, Clone, Default, PartialEq, Eq)]
pub struct WorkspaceListParams {}

/// `workspace.create`.
#[derive(Debug, Clone, Default, PartialEq, Eq)]
pub struct WorkspaceCreateParams {
    pub cwd: Option<String>,
    pub focus: bool,
    pub label: Option<String>,
    pub env: Vec<(String, String)>,
}

/// `workspace.rename`.
#[derive(Debug, Clone, PartialEq, Eq)]
pub struct WorkspaceRenameParams {
    pub workspace_id: String,
    pub label: String,
}

/// `workspace.close`.
#[derive(Debug, Clone, PartialEq, Eq)]
pub struct WorkspaceCloseParams {
    pub workspace_id: String,
}

/// `tab.create`.
#[derive(Debug, Clone, Default, PartialEq, Eq)]
pub struct TabCreateParams {
    pub workspace_id: Option<String>,
    pub cwd: Option<String>,
    pub focus: bool,
    pub label: Option<String>,
    pub env: Vec<(String, String)>,
}

/// `tab.focus`.
#[derive(Debug, Clone, PartialEq, Eq)]
pub struct TabFocusParams {
    pub tab_id: String,
}

/// `tab.close`.
#[derive(Debug, Clone, PartialEq, Eq)]
pub struct TabCloseParams {
    pub tab_id: String,
}

/// `tab.rename`.
#[derive(Debug, Clone, PartialEq, Eq)]
pub struct TabRenameParams {
    pub tab_id: String,
    pub label: String,
}

/// Workspace-scoped query params shared by `tab.list` / `pane.list`.
#[derive(Debug, Clone, Default, PartialEq, Eq)]
pub struct WorkspaceScopedParams {
    pub workspace_id: Option<String>,
}

/// `pane.split`. The split ratio is carried as the IEEE-754 bit pattern of the
/// `f32` the protocol sends (`None` = herdr's default).
#[derive(Debug, Clone, PartialEq, Eq)]
pub struct PaneSplitParams {
    pub workspace_id: Option<String>,
    pub target_pane_id: Option<String>,
    pub direction: SplitDirection,
    pub ratio_bits: Option<u32>,
    pub cwd: Option<String>,
    pub focus: bool,
    pub env: Vec<(String, String)>,
}

/// `pane.close`.
#[derive(Debug, Clone, PartialEq, Eq)]
pub struct PaneCloseParams {
    pub pane_id: String,
}

/// `pane.rename`.
#[derive(Debug, Clone, PartialEq, Eq)]
pub struct PaneRenameParams {
    pub pane_id: String,
    pub label: Option<String>,
}

/// `pane.focus_direction`.
#[derive(Debug, Clone, PartialEq, Eq)]
pub struct PaneFocusDirectionParams {
    pub pane_id: Option<String>,
    pub direction: PaneDirection,
}

/// `pane.zoom`.
#[derive(Debug, Clone, Default, PartialEq, Eq)]
pub struct PaneZoomParams {
    pub pane_id: Option<String>,
    pub mode: PaneZoomMode,
}

/// `pane.layout`.
#[derive(Debug, Clone, Default, PartialEq, Eq)]
pub struct PaneLayoutParams {
    pub pane_id: Option<String>,
}

/// `layout.export`.
#[derive(Debug, Clone, Default, PartialEq, Eq)]
pub struct LayoutExportParams {
    pub tab_id: Option<String>,
    pub pane_id: Option<String>,
}

// ─── Shared enums ────────────────────────────────────────────────────────────

/// Pane split direction.
#[derive(Debug, Clone, Copy, PartialEq, Eq, Structural)]
pub enum SplitDirection {
    Right,
    Down,
}

/// Directional focus / resize target.
#[derive(Debug, Clone, Copy, PartialEq, Eq, Structural)]
pub enum PaneDirection {
    Left,
    Right,
    Up,
    Down,
}

/// Zoom mode for `pane.zoom`.
#[derive(Debug, Clone, Copy, PartialEq, Eq, Structural, Default)]
pub enum PaneZoomMode {
    #[default]
    Toggle,
    On,
    Off,
}

/// High-level agent activity status exposed on workspaces, tabs and panes.
#[derive(Debug, Clone, Copy, PartialEq, Eq, Structural)]
pub enum AgentStatus {
    Idle,
    Working,
    Blocked,
    Done,
    Unknown,
}

/// Kind of agent session reference.
#[derive(Debug, Clone, Copy, PartialEq, Eq, Structural)]
pub enum AgentSessionRefKind {
    Id,
    Path,
}

// ─── Data structs ────────────────────────────────────────────────────────────

/// Git-worktree information attached to a workspace.
#[derive(Debug, Clone, PartialEq, Eq)]
pub struct WorkspaceWorktreeInfo {
    pub repo_key: String,
    pub repo_name: String,
    pub repo_root: String,
    pub checkout_path: String,
    pub is_linked_worktree: bool,
}

/// Top-level workspace.
#[derive(Debug, Clone, PartialEq, Eq)]
pub struct WorkspaceInfo {
    pub workspace_id: String,
    pub number: usize,
    pub label: String,
    pub focused: bool,
    pub pane_count: usize,
    pub tab_count: usize,
    pub active_tab_id: String,
    pub agent_status: AgentStatus,
    pub worktree: Option<WorkspaceWorktreeInfo>,
}

/// Tab within a workspace.
#[derive(Debug, Clone, PartialEq, Eq)]
pub struct TabInfo {
    pub tab_id: String,
    pub workspace_id: String,
    pub number: usize,
    pub label: String,
    pub focused: bool,
    pub pane_count: usize,
    pub agent_status: AgentStatus,
}

/// Agent-session resume reference attached to a pane.
#[derive(Debug, Clone, PartialEq, Eq)]
pub struct AgentSessionInfo {
    pub source: String,
    pub agent: String,
    pub kind: AgentSessionRefKind,
    pub value: String,
}

/// Individual pane within a tab; `terminal_id` is the wire-relay attach key.
#[derive(Debug, Clone, PartialEq, Eq)]
pub struct PaneInfo {
    pub pane_id: String,
    pub terminal_id: String,
    pub workspace_id: String,
    pub tab_id: String,
    pub focused: bool,
    pub cwd: Option<String>,
    pub foreground_cwd: Option<String>,
    pub label: Option<String>,
    pub agent: Option<String>,
    pub title: Option<String>,
    pub display_agent: Option<String>,
    pub agent_status: AgentStatus,
    pub custom_status: Option<String>,
    pub state_labels: Vec<(String, String)>,
    pub agent_session: Option<AgentSessionInfo>,
    pub revision: u64,
}

/// Absolute-cell rectangle within a tab's layout area.
#[derive(Debug, Clone, Copy, PartialEq, Eq, Structural)]
pub struct PaneLayoutRect {
    pub x: u16,
    pub y: u16,
    pub width: u16,
    pub height: u16,
}

/// Position and focus state of a single pane in the layout.
#[derive(Debug, Clone, PartialEq, Eq)]
pub struct PaneLayoutPane {
    pub pane_id: String,
    pub focused: bool,
    pub rect: PaneLayoutRect,
}

/// A split boundary within the layout tree (ratio as `f32` bit pattern).
#[derive(Debug, Clone, PartialEq, Eq)]
pub struct PaneLayoutSplit {
    pub id: String,
    pub direction: SplitDirection,
    pub ratio_bits: u32,
    pub rect: PaneLayoutRect,
}

/// Flat snapshot of all pane positions in one tab.
#[derive(Debug, Clone, PartialEq, Eq)]
pub struct PaneLayoutSnapshot {
    pub workspace_id: String,
    pub tab_id: String,
    pub zoomed: bool,
    /// Total terminal area in absolute cells.
    pub area: PaneLayoutRect,
    pub focused_pane_id: String,
    pub panes: Vec<PaneLayoutPane>,
    pub splits: Vec<PaneLayoutSplit>,
}

/// Reason a directional focus change did not take effect.
#[derive(Debug, Clone, Copy, PartialEq, Eq, Structural)]
pub enum PaneFocusDirectionReason {
    NoNeighbor,
}

/// Result of a `pane.focus_direction` call.
#[derive(Debug, Clone, PartialEq, Eq)]
pub struct PaneFocusDirectionResult {
    pub changed: bool,
    pub reason: Option<PaneFocusDirectionReason>,
    pub source_pane_id: String,
    pub focused_pane_id: Option<String>,
    pub layout: PaneLayoutSnapshot,
}

/// Reason a zoom change did not take effect.
#[derive(Debug, Clone, Copy, PartialEq, Eq, Structural)]
pub enum PaneZoomReason {
    SinglePane,
    AlreadyZoomed,
    AlreadyUnzoomed,
}

/// Result of a `pane.zoom` call.
#[derive(Debug, Clone, PartialEq, Eq)]
pub struct PaneZoomResult {
    pub changed: bool,
    pub zoom_changed: bool,
    pub focus_changed: bool,
    pub reason: Option<PaneZoomReason>,
    pub pane_id: String,
    pub focused_pane_id: String,
    pub zoomed: bool,
    pub layout: PaneLayoutSnapshot,
}

/// A pane node within an exported layout tree.
#[derive(Debug, Clone, PartialEq, Eq)]
pub struct LayoutPane {
    pub pane_id: Option<String>,
    pub label: Option<String>,
    pub cwd: Option<String>,
    pub command: Option<Vec<String>>,
    pub env: Vec<(String, String)>,
}

/// A node in herdr's recursive layout tree (split ratio as `f32` bit pattern).
#[derive(Debug, PartialEq, Eq)]
pub enum LayoutNode {
    Pane { pane: LayoutPane },
    Split {
        direction: SplitDirection,
        ratio_bits: u32,
        first: Box<LayoutNode>,
        second: Box<LayoutNode>,
    },
}

/// Full layout export for a tab.
#[derive(Debug, PartialEq, Eq)]
pub struct LayoutDescription {
    pub workspace_id: String,
    pub tab_id: String,
    pub zoomed: bool,
    pub focused_pane_id: String,
    pub root: LayoutNode,
}

} // verus!
