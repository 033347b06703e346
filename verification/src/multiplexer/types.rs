//! Neutral, backend-agnostic domain types spoken between the gRPC layer and
//! every multiplexer backend.

use vstd::prelude::*;

verus! {

/// Neutral pane identity: numeric id plus terminal/plugin discriminator.
#[derive(Debug, Clone, Copy, PartialEq, Eq, Structural)]
pub struct PaneRef {
    /// The pane's numeric id (terminal or plugin id, disambiguated by `is_plugin`).
    pub id: u32,
    /// `true` for a plugin pane, `false` for a terminal pane.
    pub is_plugin: bool,
}

impl PaneRef {
    /// Construct a terminal `PaneRef`.
    pub fn terminal(id: u32) -> (r: Self)
        ensures
            r == (PaneRef { id, is_plugin: false }),
    {
        PaneRef { id, is_plugin: false }
    }

    /// Construct a plugin `PaneRef`.
    pub fn plugin(id: u32) -> (r: Self)
        ensures
            r == (PaneRef { id, is_plugin: true }),
    {
        PaneRef { id, is_plugin: true }
    }
}

/// Neutral resize magnitude.
#[derive(Debug, Clone, Copy, PartialEq, Eq, Structural)]
pub enum ResizeKind {
    Increase,
    Decrease,
}

/// Neutral resize direction (an unspecified direction is `Option::None` at the
/// call site, meaning a uniform resize).
#[derive(Debug, Clone, Copy, PartialEq, Eq, Structural)]
pub enum ResizeDir {
    Left,
    Right,
    Up,
    Down,
}

/// Scrollback step requested for a pane.
#[derive(Debug, Clone, Copy, PartialEq, Eq, Structural)]
pub enum ScrollDir {
    Up,
    Down,
    ToTop,
    ToBottom,
    PageUp,
    PageDown,
    HalfPageUp,
    HalfPageDown,
}

/// Resolved floating-pane context for a fullscreen toggle.
#[derive(Debug, Clone, Copy, PartialEq, Eq, Structural)]
pub struct FullscreenHint {
    /// The target pane is a floating pane.
    pub is_floating: bool,
    /// Floating panes are currently visible in the target's tab.
    pub floating_visible: bool,
    /// The target is the currently-focused, visible floating pane.
    pub is_focused_floating: bool,
}

/// Outcome of an ephemeral control action: `{ok, error, info}`.
#[derive(Debug, Clone, PartialEq, Eq)]
pub struct ActionAck {
    pub ok: bool,
    pub error: Option<String>,
    pub info: Option<String>,
}

/// A neutral snapshot of a session's tab/pane layout (raw backend values).
#[derive(Debug, Clone, Default, PartialEq, Eq)]
pub struct LayoutSnapshot {
    pub tabs: Vec<TabSnapshot>,
}

/// A neutral snapshot of a single tab and its panes.
#[derive(Debug, Clone, Default, PartialEq, Eq)]
pub struct TabSnapshot {
    /// Stable tab id.
    pub tab_id: u64,
    /// Tab position.
    pub position: u32,
    /// Tab name.
    pub name: String,
    /// Raw active flag (before any per-connection override).
    pub active: bool,
    pub has_bell: bool,
    pub panes_to_hide: u32,
    pub fullscreen_active: bool,
    pub floating_panes_visible: bool,
    /// Panes belonging to this tab, in listing order (plugin panes included).
    pub panes: Vec<PaneSnapshot>,
}

/// A neutral snapshot of a single pane.
#[derive(Debug, Clone, Default, PartialEq, Eq)]
pub struct PaneSnapshot {
    pub id: u32,
    pub title: String,
    pub is_focused: bool,
    pub is_floating: bool,
    pub exited: bool,
    pub command: String,
    pub cwd: String,
    pub x: u32,
    pub y: u32,
    pub rows: u32,
    pub cols: u32,
    pub is_plugin: bool,
    pub is_fullscreen: bool,
}

/// A neutral "space" (a herdr workspace surfaced as sub-navigation).
#[derive(Debug, Clone, PartialEq, Eq)]
pub struct SpaceSnapshot {
    /// Opaque space id (herdr `workspace_id`).
    pub id: String,
    /// Display name.
    pub name: String,
    /// Backend-reported active flag.
    pub active: bool,
}

/// A neutral control/lifecycle event forwarded to attached clients.
#[derive(Debug, Clone, PartialEq, Eq)]
pub enum MuxEvent {
    /// The session exited with a human-readable reason.
    Exit { reason: String },
    /// The session was renamed.
    RenamedSession { name: String },
    /// The session's config file was updated.
    ConfigUpdated,
    /// The server asked the client to switch to session `name`.
    SwitchSession { name: String },
}

/// A neutral message yielded by a backend attach stream.
#[derive(Debug, Clone)]
pub enum MuxServerMsg {
    /// A render frame (ANSI viewport bytes).
    Render(Vec<u8>),
    /// One server log payload (a query reply line).
    Log(String),
    /// A control/lifecycle event.
    Event(MuxEvent),
    /// A message with no remote-client semantics.
    Other,
}

} // verus!
