//! The request checks and conversions of the pane and tab RPCs: payload
//! bound, required targets, optional names, and the proto → neutral
//! resize / scroll / floating-hint conversions.

use vstd::prelude::*;
use vstd::string::StrSliceExecFns;

use crate::grpc::helpers::PaneTarget;
use crate::multiplexer::types::{ResizeDir, ResizeKind, ScrollDir};
use crate::text::{decimal, push_decimal, push_str};

verus! {

/// Upper bound on a single `WriteToPane` payload (1 MiB).
pub const MAX_WRITE_TO_PANE_BYTES: usize = 1048576;

/// Refuse a `WriteToPane` payload over [`MAX_WRITE_TO_PANE_BYTES`].
pub fn check_write_payload(len: usize) -> (r: Result<(), String>)
    ensures
        len <= MAX_WRITE_TO_PANE_BYTES ==> r is Ok,
        len > MAX_WRITE_TO_PANE_BYTES ==> r is Err && r->Err_0@ == "WriteToPane: payload "@
            + decimal(len as nat) + " bytes exceeds the 1048576 byte limit"@,
{
    if len > MAX_WRITE_TO_PANE_BYTES {
        let mut m = String::new();
        push_str(&mut m, "WriteToPane: payload ");
        push_decimal(&mut m, len as u64);
        push_str(&mut m, " bytes exceeds the 1048576 byte limit");
        Err(m)
    } else {
        Ok(())
    }
}

/// The target a pane RPC acts on; an absent one is refused with
/// `"<rpc>: target is required"`.
pub fn required_target(target: Option<PaneTarget>, rpc: &str) -> (r: Result<PaneTarget, String>)
    ensures
        match target {
            Some(t) => r == Ok::<PaneTarget, String>(t),
            None => r is Err && r->Err_0@ == rpc@ + ": target is required"@,
        },
{
    match target {
        Some(t) => Ok(t),
        None => {
            let mut m = String::new();
            push_str(&mut m, rpc);
            push_str(&mut m, ": target is required");
            Err(m)
        },
    }
}

/// The target of a `TogglePaneFullscreen`; an absent one is refused with
/// `"TogglePaneFullscreen: missing target"`.
pub fn fullscreen_target(target: Option<PaneTarget>) -> (r: Result<PaneTarget, String>)
    ensures
        match target {
            Some(t) => r == Ok::<PaneTarget, String>(t),
            None => r is Err && r->Err_0@ == "TogglePaneFullscreen: missing target"@,
        },
{
    match target {
        Some(t) => Ok(t),
        None => {
            proof {
                reveal_strlit("TogglePaneFullscreen: missing target");
            }
            Err("TogglePaneFullscreen: missing target".to_owned())
        },
    }
}

/// An optional name from a proto string: empty means none.
pub fn optional_name(name: String) -> (r: Option<String>)
    ensures
        name@.len() == 0 ==> r is None,
        name@.len() > 0 ==> r == Some(name),
{
    if name.as_str().unicode_len() == 0 {
        None
    } else {
        Some(name)
    }
}

/// A tab rename needs a non-empty name.
pub fn check_tab_name(name: &str) -> (r: Result<(), String>)
    ensures
        name@.len() > 0 ==> r is Ok,
        name@.len() == 0 ==> r is Err && r->Err_0@ == "tab name must not be empty"@,
{
    if name.unicode_len() == 0 {
        Err("tab name must not be empty".to_owned())
    } else {
        Ok(())
    }
}

/// The proto `ResizeKind`.
#[derive(Debug, Clone, Copy, PartialEq, Eq, Structural)]
pub enum ProtoResizeKind {
    Increase,
    Decrease,
}

/// The neutral resize kind: `Decrease` only when the request says so;
/// anything else (including an unknown tag, `None`) increases.
pub fn resize_kind_of(kind: Option<ProtoResizeKind>) -> (r: ResizeKind)
    ensures
        r == (if kind == Some(ProtoResizeKind::Decrease) {
            ResizeKind::Decrease
        } else {
            ResizeKind::Increase
        }),
{
    match kind {
        Some(ProtoResizeKind::Decrease) => ResizeKind::Decrease,
        _ => ResizeKind::Increase,
    }
}

/// The neutral resize direction of a proto tag: 1 left, 2 right, 3 up,
/// 4 down; anything else (0 = unspecified) is a uniform resize.
pub fn resize_dir_of(direction: i32) -> (r: Option<ResizeDir>)
    ensures
        r == (if direction == 1 {
            Some(ResizeDir::Left)
        } else if direction == 2 {
            Some(ResizeDir::Right)
        } else if direction == 3 {
            Some(ResizeDir::Up)
        } else if direction == 4 {
            Some(ResizeDir::Down)
        } else {
            None
        }),
{
    if direction == 1 {
        Some(ResizeDir::Left)
    } else if direction == 2 {
        Some(ResizeDir::Right)
    } else if direction == 3 {
        Some(ResizeDir::Up)
    } else if direction == 4 {
        Some(ResizeDir::Down)
    } else {
        None
    }
}

/// The proto `ScrollDirection`.
#[derive(Debug, Clone, Copy, PartialEq, Eq, Structural)]
pub enum ProtoScrollDirection {
    Up,
    Down,
    ToTop,
    ToBottom,
    PageUp,
    PageDown,
    HalfPageUp,
    HalfPageDown,
}

/// The neutral scroll step of a proto direction; an unrecognised tag
/// (`None`) scrolls up.
pub fn scroll_dir_of(dir: Option<ProtoScrollDirection>) -> (r: ScrollDir)
    ensures
        r == (match dir {
            Some(ProtoScrollDirection::Up) => ScrollDir::Up,
            Some(ProtoScrollDirection::Down) => ScrollDir::Down,
            Some(ProtoScrollDirection::ToTop) => ScrollDir::ToTop,
            Some(ProtoScrollDirection::ToBottom) => ScrollDir::ToBottom,
            Some(ProtoScrollDirection::PageUp) => ScrollDir::PageUp,
            Some(ProtoScrollDirection::PageDown) => ScrollDir::PageDown,
            Some(ProtoScrollDirection::HalfPageUp) => ScrollDir::HalfPageUp,
            Some(ProtoScrollDirection::HalfPageDown) => ScrollDir::HalfPageDown,
            None => ScrollDir::Up,
        }),
{
    match dir {
        Some(ProtoScrollDirection::Up) => ScrollDir::Up,
        Some(ProtoScrollDirection::Down) => ScrollDir::Down,
        Some(ProtoScrollDirection::ToTop) => ScrollDir::ToTop,
        Some(ProtoScrollDirection::ToBottom) => ScrollDir::ToBottom,
        Some(ProtoScrollDirection::PageUp) => ScrollDir::PageUp,
        Some(ProtoScrollDirection::PageDown) => ScrollDir::PageDown,
        Some(ProtoScrollDirection::HalfPageUp) => ScrollDir::HalfPageUp,
        Some(ProtoScrollDirection::HalfPageDown) => ScrollDir::HalfPageDown,
        None => ScrollDir::Up,
    }
}

/// The client's floating context for a fullscreen toggle.
#[derive(Debug, Clone, Copy, PartialEq, Eq, Structural)]
pub struct FloatingHint {
    pub target_is_floating: bool,
    pub floating_visible: bool,
    pub target_is_focused_floating: bool,
}

/// The floating hint forwarded to the relay: trusted only when the client
/// attests it (`has_floating_hint`); proto3 booleans default to false, so
/// an unattested all-false hint must not read as "tiled".
pub fn floating_hint(
    has_floating_hint: bool,
    target_is_floating: bool,
    floating_visible: bool,
    target_is_focused_floating: bool,
) -> (r: Option<FloatingHint>)
    ensures
        has_floating_hint ==> r == Some(
            FloatingHint { target_is_floating, floating_visible, target_is_focused_floating },
        ),
        !has_floating_hint ==> r is None,
{
    if has_floating_hint {
        Some(FloatingHint { target_is_floating, floating_visible, target_is_focused_floating })
    } else {
        None
    }
}

} // verus!
