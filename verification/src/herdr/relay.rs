//! The herdr data plane's decisions: the handshake gate, which terminal an
//! attach follows, the messages sent on the wire, and how server messages map
//! onto the neutral stream.
//!
//! herdr's `AttachTerminal` streams one pane's ANSI content, so a relay is
//! attached to one `terminal_id` at a time: initially the workspace's focused
//! pane; focusing another pane re-attaches the stream to it.

use vstd::prelude::*;

use crate::herdr::api::PaneInfo;
use crate::herdr::registry::{pane_steps, HerdrPaneRegistry};
use crate::herdr::transcode::{
    info_for, lemma_listed_registrations, listed_regs, map_extends, pane_term,
};
use crate::herdr::wire::{
    read_frame, ClientKeybindings, ClientLaunchMode, ClientMessage, RenderEncoding, ServerMessage,
    HERDR_PROTOCOL_VERSION,
};
use crate::multiplexer::types::{MuxEvent, MuxServerMsg, PaneRef};
use crate::text::{decimal, push_decimal, push_str};

verus! {

/// Cell pixel dimensions advertised in `Hello` (0 disables graphics).
pub const CELL_PX_DISABLED: u32 = 0;

/// Per-call bound on the handshake and on every wire write, in seconds.
pub const WIRE_TIMEOUT_SECS: u64 = 3;

/// Map one herdr server message onto the neutral stream: terminal frames
/// are forwarded verbatim as render bytes (full or incremental), a shutdown
/// becomes an exit event (reason defaulting to empty), and everything else
/// is drained as `Other`.
pub fn map_server_message(msg: ServerMessage) -> (r: MuxServerMsg)
    ensures
        match msg {
            ServerMessage::Terminal(frame) => r == MuxServerMsg::Render(frame.bytes),
            ServerMessage::ServerShutdown { reason } => r matches MuxServerMsg::Event(
                MuxEvent::Exit { reason: text },
            ) && text@ == (match reason {
                Some(s) => s@,
                None => Seq::<char>::empty(),
            }),
            _ => r == MuxServerMsg::Other,
        },
{
    match msg {
        ServerMessage::Terminal(frame) => MuxServerMsg::Render(frame.bytes),
        ServerMessage::ServerShutdown { reason } => MuxServerMsg::Event(
            MuxEvent::Exit {
                reason: match reason {
                    Some(s) => s,
                    None => String::new(),
                },
            },
        ),
        _ => MuxServerMsg::Other,
    }
}

/// The payload of the next frame on the stream, or `None` when the stream
/// ended or the frame is malformed or oversized (the relay cannot continue
/// past either).
pub fn recv_payload(stream: &[u8]) -> (r: Option<Vec<u8>>)
    ensures
        r is Some <==> read_frame_ok(stream@),
        recv_payload_post(
            stream@,
            match r {
                Some(p) => Some(p@),
                None => None,
            },
        ),
{
    match read_frame(stream) {
        Ok((payload, _)) => Some(payload),
        Err(_) => None,
    }
}

/// What `recv_payload` gives for `stream`: the bytes that follow the
/// length prefix, as many as the prefix claims, when a complete frame of
/// acceptable size stands at the front; nothing otherwise.
pub open spec fn recv_payload_post(stream: Seq<u8>, r: Option<Seq<u8>>) -> bool {
    &&& r is Some <==> read_frame_ok(stream)
    &&& r matches Some(p) ==> p == stream.subrange(4, 4 + crate::herdr::wire::claimed_len(stream))
}

/// Receiving from a stream that starts with the frame of a payload of
/// acceptable size gives back exactly that payload, whatever follows it
/// (including nothing).
pub proof fn law_recv_payload_reads_back_frame(payload: Seq<u8>, rest: Seq<u8>, r: Option<Seq<u8>>)
    requires
        payload.len() <= crate::herdr::wire::MAX_FRAME_SIZE,
        recv_payload_post(crate::herdr::wire::framed(payload) + rest, r),
    ensures
        r == Some(payload),
{
    crate::herdr::wire::law_frame_round_trip(payload, rest);
}

/// A complete frame of acceptable size stands at the front of the stream.
pub open spec fn read_frame_ok(stream: Seq<u8>) -> bool {
    &&& stream.len() >= 4
    &&& crate::herdr::wire::claimed_len(stream) <= crate::herdr::wire::MAX_FRAME_SIZE
    &&& stream.len() >= 4 + crate::herdr::wire::claimed_len(stream)
}

/// Check herdr's handshake reply: it must be a `Welcome` without an error,
/// speaking protocol version 14 exactly.
pub fn assert_welcome(msg: &ServerMessage) -> (r: Result<(), String>)
    ensures
        match msg {
            ServerMessage::Welcome { version, encoding, error } => match error {
                Some(e) => r is Err && r->Err_0@ == "herdr rejected the handshake: "@ + e@,
                None => if *version == HERDR_PROTOCOL_VERSION {
                    r is Ok
                } else {
                    r is Err && r->Err_0@ == "herdr wire protocol mismatch: server speaks v"@
                        + decimal(*version as nat) + ", muxrd requires v14"@
                },
            },
            _ => r is Err && r->Err_0@
                == "herdr handshake: expected Welcome, got a different message first"@,
        },
{
    match msg {
        ServerMessage::Welcome { version, encoding: _, error } => {
            match error {
                Some(e) => {
                    let mut m = String::new();
                    push_str(&mut m, "herdr rejected the handshake: ");
                    push_str(&mut m, e.as_str());
                    Err(m)
                },
                None => {
                    if *version == HERDR_PROTOCOL_VERSION {
                        Ok(())
                    } else {
                        let mut m = String::new();
                        push_str(&mut m, "herdr wire protocol mismatch: server speaks v");
                        push_decimal(&mut m, *version as u64);
                        push_str(&mut m, ", muxrd requires v14");
                        Err(m)
                    }
                },
            }
        },
        _ => Err("herdr handshake: expected Welcome, got a different message first".to_owned()),
    }
}

/// The handshake this relay sends: protocol 14, terminal ANSI encoding,
/// the server's keybindings, terminal-attach mode, graphics disabled.
pub fn hello_message(rows: u16, cols: u16) -> (r: ClientMessage)
    ensures
        r == (ClientMessage::Hello {
            version: HERDR_PROTOCOL_VERSION,
            cols,
            rows,
            cell_width_px: CELL_PX_DISABLED,
            cell_height_px: CELL_PX_DISABLED,
            requested_encoding: RenderEncoding::TerminalAnsi,
            keybindings: ClientKeybindings::Server,
            launch_mode: ClientLaunchMode::TerminalAttach,
        }),
{
    ClientMessage::Hello {
        version: HERDR_PROTOCOL_VERSION,
        cols,
        rows,
        cell_width_px: CELL_PX_DISABLED,
        cell_height_px: CELL_PX_DISABLED,
        requested_encoding: RenderEncoding::TerminalAnsi,
        keybindings: ClientKeybindings::Server,
        launch_mode: ClientLaunchMode::TerminalAttach,
    }
}

/// Re-point the stream at `terminal_id`, taking over any writable owner.
pub fn attach_message(terminal_id: String) -> (r: ClientMessage)
    ensures
        r == (ClientMessage::AttachTerminal { terminal_id, takeover: true }),
{
    ClientMessage::AttachTerminal { terminal_id, takeover: true }
}

/// A resize to the client's geometry (graphics disabled).
pub fn resize_message(rows: u16, cols: u16) -> (r: ClientMessage)
    ensures
        r == (ClientMessage::Resize {
            cols,
            rows,
            cell_width_px: CELL_PX_DISABLED,
            cell_height_px: CELL_PX_DISABLED,
        }),
{
    ClientMessage::Resize {
        cols,
        rows,
        cell_width_px: CELL_PX_DISABLED,
        cell_height_px: CELL_PX_DISABLED,
    }
}

/// Raw input bytes for the attached terminal.
pub fn input_message(data: Vec<u8>) -> (r: ClientMessage)
    ensures
        r == (ClientMessage::Input { data }),
{
    ClientMessage::Input { data }
}

/// The index of the last focused pane listed, if any.
pub open spec fn last_focused(panes: Seq<PaneInfo>) -> Option<int>
    decreases panes.len(),
{
    if panes.len() == 0 {
        None
    } else if panes.last().focused {
        Some(panes.len() - 1)
    } else {
        last_focused(panes.drop_last())
    }
}

/// The pane an attach follows: the (last) focused pane, else the first
/// listed; none for a workspace without panes.
pub open spec fn attach_index(panes: Seq<PaneInfo>) -> Option<int> {
    match last_focused(panes) {
        Some(k) => Some(k),
        None => if panes.len() > 0 {
            Some(0)
        } else {
            None
        },
    }
}

proof fn lemma_last_focused_bounds(panes: Seq<PaneInfo>)
    ensures
        last_focused(panes) matches Some(k) ==> 0 <= k < panes.len(),
    decreases panes.len(),
{
    if panes.len() > 0 && !panes.last().focused {
        lemma_last_focused_bounds(panes.drop_last());
    }
}

proof fn lemma_last_focused_is(panes: Seq<PaneInfo>, k: int)
    requires
        0 <= k < panes.len(),
        panes[k].focused,
        forall|k2: int| k < k2 < panes.len() ==> !(#[trigger] panes[k2]).focused,
    ensures
        last_focused(panes) == Some(k),
    decreases panes.len(),
{
    if k < panes.len() - 1 {
        assert(!panes[panes.len() - 1].focused);
        let d = panes.drop_last();
        assert forall|k2: int| k < k2 < d.len() implies !(#[trigger] d[k2]).focused by {
            assert(d[k2] == panes[k2]);
        }
        lemma_last_focused_is(d, k);
    }
}

proof fn lemma_last_focused_none(panes: Seq<PaneInfo>)
    requires
        forall|k: int| 0 <= k < panes.len() ==> !(#[trigger] panes[k]).focused,
    ensures
        last_focused(panes) is None,
    decreases panes.len(),
{
    if panes.len() > 0 {
        assert(!panes[panes.len() - 1].focused);
        let d = panes.drop_last();
        assert forall|k: int| 0 <= k < d.len() implies !(#[trigger] d[k]).focused by {
            assert(d[k] == panes[k]);
        }
        lemma_last_focused_none(d);
    }
}

/// An attach follows the last pane `pane.list` reports focused; when no
/// pane is focused, the first listed pane; and nothing for a workspace
/// without panes.
pub proof fn law_attach_follows_focused(panes: Seq<PaneInfo>, k: int)
    ensures
        0 <= k < panes.len() && panes[k].focused && (forall|k2: int|
            k < k2 < panes.len() ==> !(#[trigger] panes[k2]).focused) ==> attach_index(panes) == Some(
            k,
        ),
        panes.len() > 0 && (forall|j: int| 0 <= j < panes.len() ==> !(#[trigger] panes[j]).focused)
            ==> attach_index(panes) == Some(0int),
        panes.len() == 0 ==> attach_index(panes) is None,
{
    if 0 <= k < panes.len() && panes[k].focused && (forall|k2: int|
        k < k2 < panes.len() ==> !(#[trigger] panes[k2]).focused) {
        lemma_last_focused_is(panes, k);
    }
    if forall|j: int| 0 <= j < panes.len() ==> !(#[trigger] panes[j]).focused {
        lemma_last_focused_none(panes);
    }
}

/// Resolve the workspace's focused pane to its `(u32 pane id, terminal_id)`,
/// registering every listed pane; falls back to the first listed pane and
/// fails only when there are no panes.
pub fn resolve_focused_terminal(
    panes: &Vec<PaneInfo>,
    reg: &mut HerdrPaneRegistry,
    workspace_id: &str,
) -> (r: Result<(u32, String), String>)
    ensures
        map_extends(old(reg).ids(), final(reg).ids()),
        forall|i: int|
            0 <= i < panes.len() ==> final(reg).ids().contains_key(#[trigger] panes@[i].pane_id@),
        match attach_index(panes@) {
            Some(k) => r is Ok && r->Ok_0.0 == final(reg).ids()[panes@[k].pane_id@] && r->Ok_0.1@
                == panes@[k].terminal_id@,
            None => r is Err && r->Err_0@ == "herdr workspace '"@ + workspace_id@
                + "' has no panes to attach"@,
        },
        final(reg).model() == pane_steps(old(reg).model(), listed_regs(panes@)),
        old(reg).consistent() && final(reg).next() < u32::MAX ==> {
            &&& final(reg).consistent()
            &&& forall|i: int|
                0 <= i < panes.len() ==> #[trigger] final(reg).entries()[final(reg).ids()[panes@[i].pane_id@]] == (
                    panes@[i].pane_id@,
                    pane_term(info_for(panes@, panes@[i].pane_id@)),
                )
        },
{
    let mut first: Option<(u32, String)> = None;
    let mut focused: Option<(u32, String)> = None;
    let mut i: usize = 0;
    while i < panes.len()
        invariant
            0 <= i <= panes.len(),
            map_extends(old(reg).ids(), reg.ids()),
            forall|j: int| 0 <= j < i ==> reg.ids().contains_key(#[trigger] panes@[j].pane_id@),
            reg.model() == pane_steps(old(reg).model(), listed_regs(panes@.take(i as int))),
            first is Some <==> i > 0,
            first matches Some(f) ==> f.0 == reg.ids()[panes@[0].pane_id@] && f.1@
                == panes@[0].terminal_id@,
            focused is Some <==> last_focused(panes@.take(i as int)) is Some,
            focused matches Some(f) ==> ({
                let k = last_focused(panes@.take(i as int))->0;
                &&& 0 <= k < i
                &&& f.0 == reg.ids()[panes@[k].pane_id@]
                &&& f.1@ == panes@[k].terminal_id@
            }),
        decreases panes.len() - i,
    {
        let ghost before = reg.ids();
        proof {
            assert(listed_regs(panes@.take(i + 1)).drop_last() =~= listed_regs(panes@.take(i as int)));
            assert(listed_regs(panes@.take(i + 1)).last() == (
                panes@[i as int].pane_id@,
                panes@[i as int].terminal_id@,
            ));
        }
        let pane = &panes[i];
        let id = reg.assign_or_get(pane.pane_id.as_str(), pane.terminal_id.as_str());
        proof {
            assert(map_extends(before, reg.ids()));
            assert(reg.ids()[pane.pane_id@] == id);
            assert(panes@.take(i + 1).drop_last() =~= panes@.take(i as int));
            assert(panes@.take(i + 1).last() == panes@[i as int]);
            lemma_last_focused_bounds(panes@.take(i as int));
        }
        if first.is_none() {
            first = Some((id, pane.terminal_id.clone()));
        }
        if pane.focused {
            focused = Some((id, pane.terminal_id.clone()));
        }
        i = i + 1;
    }
    proof {
        assert(panes@.take(panes@.len() as int) =~= panes@);
        lemma_listed_registrations(old(reg).model(), panes@);
        let fm = reg.model();
        if old(reg).consistent() && reg.next() < u32::MAX {
            assert forall|m: int| 0 <= m < panes.len() implies #[trigger] reg.entries()[reg.ids()[panes@[m].pane_id@]]
                == (panes@[m].pane_id@, pane_term(info_for(panes@, panes@[m].pane_id@))) by {
                assert(fm.2[fm.1[panes@[m].pane_id@]] == (
                    panes@[m].pane_id@,
                    pane_term(info_for(panes@, panes@[m].pane_id@)),
                ));
            }
        }
    }
    match focused {
        Some(f) => Ok(f),
        None => match first {
            Some(f) => Ok(f),
            None => {
                let mut m = String::new();
                push_str(&mut m, "herdr workspace '");
                push_str(&mut m, workspace_id);
                push_str(&mut m, "' has no panes to attach");
                Err(m)
            },
        },
    }
}

/// The terminal a focus request re-attaches to: the recorded terminal of
/// the neutral pane id, or an error for an unknown id.
pub fn focus_target(reg: &HerdrPaneRegistry, pane: PaneRef) -> (r: Result<String, String>)
    ensures
        reg.entries().contains_key(pane.id) ==> r is Ok && r->Ok_0@ == reg.entries()[pane.id].1,
        !reg.entries().contains_key(pane.id) ==> r is Err && r->Err_0@
            == "herdr focus_pane: unknown pane id "@ + decimal(pane.id as nat),
{
    match reg.terminal_id(pane.id) {
        Some(t) => Ok(t),
        None => {
            let mut m = String::new();
            push_str(&mut m, "herdr focus_pane: unknown pane id ");
            push_decimal(&mut m, pane.id as u64);
            Err(m)
        },
    }
}

} // verus!
