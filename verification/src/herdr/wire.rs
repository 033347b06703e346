//! herdr's binary wire relay protocol (protocol 14): the message vocabulary
//! and the length-prefixed framing `[u32 little-endian length][payload]`.
//!
//! Payloads are bincode (`standard()`) encodings of [`ClientMessage`] /
//! [`ServerMessage`]; variant order is wire-critical (the bincode tag is the
//! 0-based declaration index). Encoding and decoding of payloads happen at
//! the socket edge; the framing and its checks are here.

use vstd::prelude::*;

use crate::text::{decimal, push_decimal, push_str};

verus! {

// ─── Protocol constants ──────────────────────────────────────────────────────

/// herdr wire protocol version this crate targets (strict equality on
/// `Welcome`).
pub const HERDR_PROTOCOL_VERSION: u32 = 14;

/// Maximum frame payload accepted from the server (2 MiB).
pub const MAX_FRAME_SIZE: usize = 2097152;

// ─── Enums shared between client and server ──────────────────────────────────

/// Render encoding negotiated during the `Hello`/`Welcome` handshake.
#[derive(Debug, Clone, Copy, PartialEq, Eq, Structural)]
pub enum RenderEncoding {
    /// Full semantic `FrameData` values.
    SemanticFrame,
    /// Pre-diffed terminal ANSI byte streams (what this crate requests).
    TerminalAnsi,
}

/// Keybinding profile the client requests at connection time.
#[derive(Debug, Clone, PartialEq, Eq)]
pub enum ClientKeybindings {
    /// Use the server's own keybinding config.
    Server,
    /// Use the client's own normalized `[keys]` TOML section.
    Local { keys_toml: String },
}

/// Client behaviour mode requested at connection time.
#[derive(Debug, Clone, Copy, PartialEq, Eq, Structural)]
pub enum ClientLaunchMode {
    /// Full app client.
    App,
    /// Direct terminal-attach client (relays a single pane).
    TerminalAttach,
}

/// Scroll direction for attach-mode scrollback events.
#[derive(Debug, Clone, Copy, PartialEq, Eq, Structural)]
pub enum AttachScrollDirection {
    Up,
    Down,
}

/// Input source for an attach-mode scroll event.
#[derive(Debug, Clone, PartialEq, Eq)]
pub enum AttachScrollSource {
    /// Mouse wheel scroll.
    Wheel,
    /// Page key forwarded from the client (its raw bytes).
    PageKey { input: Vec<u8> },
}

/// Key event kind for structured input events.
#[derive(Debug, Clone, Copy, PartialEq, Eq, Structural)]
pub enum ClientKeyKind {
    Press,
    Repeat,
    Release,
}

/// Key code for structured input events (declaration order is wire order).
#[derive(Debug, Clone, PartialEq, Eq)]
pub enum ClientKeyCode {
    Backspace,
    Enter,
    Left,
    Right,
    Up,
    Down,
    Home,
    End,
    PageUp,
    PageDown,
    Tab,
    BackTab,
    Delete,
    Insert,
    Esc,
    Char(char),
    F(u8),
    Null,
}

/// Mouse button identifier.
#[derive(Debug, Clone, Copy, PartialEq, Eq, Structural)]
pub enum ClientMouseButton {
    Left,
    Right,
    Middle,
}

/// Mouse event kind (declaration order is wire order).
#[derive(Debug, Clone, Copy, PartialEq, Eq, Structural)]
pub enum ClientMouseKind {
    Down(ClientMouseButton),
    Up(ClientMouseButton),
    Drag(ClientMouseButton),
    Moved,
    ScrollUp,
    ScrollDown,
    ScrollLeft,
    ScrollRight,
}

/// Structured input event from a platform client.
#[derive(Debug, Clone, PartialEq, Eq)]
pub enum ClientInputEvent {
    Key { code: ClientKeyCode, modifiers: u8, kind: ClientKeyKind },
    Mouse { kind: ClientMouseKind, column: u16, row: u16, modifiers: u8 },
    Paste { text: String },
    FocusGained,
    FocusLost,
}

// ─── ClientMessage ───────────────────────────────────────────────────────────

/// Messages sent to herdr over the wire relay socket (tags 0..=7 in
/// declaration order).
#[derive(Debug, Clone, PartialEq, Eq)]
pub enum ClientMessage {
    /// Handshake, first on a new connection. Tag 0.
    Hello {
        version: u32,
        cols: u16,
        rows: u16,
        cell_width_px: u32,
        cell_height_px: u32,
        requested_encoding: RenderEncoding,
        keybindings: ClientKeybindings,
        launch_mode: ClientLaunchMode,
    },
    /// Raw input bytes. Tag 1.
    Input { data: Vec<u8> },
    /// Image bytes for clipboard paste bridging (never sent). Tag 2.
    ClipboardImage { extension: String, data: Vec<u8> },
    /// Terminal resize. Tag 3.
    Resize { cols: u16, rows: u16, cell_width_px: u32, cell_height_px: u32 },
    /// Graceful disconnect. Tag 4.
    Detach,
    /// Attach this connection to one terminal. Tag 5.
    AttachTerminal { terminal_id: String, takeover: bool },
    /// Scrollback scroll in direct-attach mode (never sent). Tag 6.
    AttachScroll {
        source: AttachScrollSource,
        direction: AttachScrollDirection,
        lines: u16,
        column: Option<u16>,
        row: Option<u16>,
        modifiers: u8,
    },
    /// Structured input events (never sent). Tag 7.
    InputEvents { events: Vec<ClientInputEvent> },
}

// ─── ServerMessage supporting types ──────────────────────────────────────────

/// A single rendered cell in a semantic frame.
#[derive(Debug, Clone, PartialEq, Eq)]
pub struct CellData {
    pub symbol: String,
    pub fg: u32,
    pub bg: u32,
    pub modifier: u16,
    pub skip: bool,
    pub hyperlink: Option<u32>,
}

/// Cursor position and shape within a rendered frame.
#[derive(Debug, Clone, PartialEq, Eq)]
pub struct CursorState {
    pub x: u16,
    pub y: u16,
    pub visible: bool,
    /// DECSCUSR shape parameter (0 = terminal default).
    pub shape: u8,
}

/// Semantic rendered frame.
#[derive(Debug, Clone, PartialEq, Eq)]
pub struct FrameData {
    pub cells: Vec<CellData>,
    pub width: u16,
    pub height: u16,
    pub cursor: Option<CursorState>,
    pub hyperlinks: Vec<String>,
    pub graphics: Vec<u8>,
}

/// Terminal ANSI bytes for `TerminalAnsi` clients (the render payload).
#[derive(Debug, Clone, PartialEq, Eq)]
pub struct TerminalFrame {
    /// Monotonic per-client frame sequence number.
    pub seq: u64,
    pub width: u16,
    pub height: u16,
    /// `true` = full repaint; `false` = incremental diff.
    pub full: bool,
    /// Raw ANSI escape sequences.
    pub bytes: Vec<u8>,
}

/// Notification kind sent from server to client.
#[derive(Debug, Clone, Copy, PartialEq, Eq, Structural)]
pub enum NotifyKind {
    Sound,
    Toast,
    SystemToast,
}

// ─── ServerMessage ───────────────────────────────────────────────────────────

/// Messages sent by herdr over the wire relay socket (tags 0..=9 in
/// declaration order).
#[derive(Debug, Clone, PartialEq, Eq)]
pub enum ServerMessage {
    /// Handshake response; `error` set means the handshake failed. Tag 0.
    Welcome { version: u32, encoding: RenderEncoding, error: Option<String> },
    /// Semantic rendered frame. Tag 1.
    Frame(FrameData),
    /// Terminal ANSI bytes. Tag 2.
    Terminal(TerminalFrame),
    /// Client-local Kitty graphics bytes. Tag 3.
    Graphics { bytes: Vec<u8> },
    /// Server shutting down. Tag 4.
    ServerShutdown { reason: Option<String> },
    /// Notification event. Tag 5.
    Notify { kind: NotifyKind, message: String, body: Option<String> },
    /// OSC 52 clipboard data. Tag 6.
    Clipboard { data: String },
    /// Outer terminal window title. Tag 7.
    WindowTitle { title: Option<String> },
    /// Reload client-local sound config. Tag 8.
    ReloadSoundConfig,
    /// Whether the client should capture host mouse input. Tag 9.
    MouseCapture { enabled: bool },
}

// ─── Framing errors ──────────────────────────────────────────────────────────

/// Errors from framing / deframing.
#[derive(Debug, Clone, PartialEq, Eq)]
pub enum FramingError {
    /// Declared frame length exceeds [`MAX_FRAME_SIZE`].
    Oversized { claimed: usize, max: usize },
    /// Underlying I/O error (its message).
    Io(String),
    /// bincode (de)serialization failure.
    Bincode(String),
    /// Stream closed before a complete frame could be read.
    UnexpectedEof,
}

impl FramingError {
    /// The human-readable text of the error.
    pub open spec fn text(self) -> Seq<char> {
        match self {
            FramingError::Oversized { claimed, max } => "frame length "@ + decimal(claimed as nat)
                + " exceeds maximum "@ + decimal(max as nat),
            FramingError::Io(e) => "I/O error: "@ + e@,
            FramingError::Bincode(e) => "bincode error: "@ + e@,
            FramingError::UnexpectedEof => "unexpected end of stream"@,
        }
    }

    /// The human-readable text of the error.
    pub fn message(&self) -> (r: String)
        ensures
            r@ == self.text(),
    {
        let mut m = String::new();
        match self {
            FramingError::Oversized { claimed, max } => {
                push_str(&mut m, "frame length ");
                push_decimal(&mut m, *claimed as u64);
                push_str(&mut m, " exceeds maximum ");
                push_decimal(&mut m, *max as u64);
            },
            FramingError::Io(e) => {
                push_str(&mut m, "I/O error: ");
                push_str(&mut m, e.as_str());
            },
            FramingError::Bincode(e) => {
                push_str(&mut m, "bincode error: ");
                push_str(&mut m, e.as_str());
            },
            FramingError::UnexpectedEof => {
                push_str(&mut m, "unexpected end of stream");
            },
        }
        m
    }
}

// ─── Framing ─────────────────────────────────────────────────────────────────

/// The 4-byte little-endian encoding of `n`.
pub open spec fn le_bytes(n: u32) -> Seq<u8> {
    seq![
        (n % 256) as u8,
        ((n / 256) % 256) as u8,
        ((n / 65536) % 256) as u8,
        ((n / 16777216) % 256) as u8,
    ]
}

/// The value of a 4-byte little-endian prefix.
pub open spec fn le_value(b: Seq<u8>) -> int {
    b[0] + 256 * b[1] + 65536 * b[2] + 16777216 * b[3]
}

/// Decoding the little-endian encoding of a length gives the length back.
pub proof fn law_le_round_trip(n: u32)
    ensures
        le_value(le_bytes(n)) == n,
{
    let b0: u32 = n % 256;
    let b1: u32 = (n / 256) % 256;
    let b2: u32 = (n / 65536) % 256;
    let b3: u32 = (n / 16777216) % 256;
    assert(b0 + 256 * b1 + 65536 * b2 + 16777216 * b3 == n) by (bit_vector)
        requires
            b0 == n % 256,
            b1 == (n / 256) % 256,
            b2 == (n / 65536) % 256,
            b3 == (n / 16777216) % 256,
    ;
}

/// The frame text of a payload of fewer than 2^32 bytes.
pub open spec fn framed(payload: Seq<u8>) -> Seq<u8> {
    le_bytes(payload.len() as u32) + payload
}

/// Frame an encoded payload: its 4-byte little-endian length, then the
/// payload. A payload too long for the prefix is refused.
pub fn frame_payload(payload: &Vec<u8>) -> (r: Result<Vec<u8>, FramingError>)
    ensures
        payload.len() <= u32::MAX ==> r is Ok && r->Ok_0@ == framed(payload@),
        payload.len() > u32::MAX ==> (r matches Err(FramingError::Bincode(m)) && m@ == "payload length "@
            + decimal(payload.len() as nat) + " exceeds u32::MAX — too large to frame"@),
{
    let len = payload.len();
    if len > 4294967295usize {
        let mut m = String::new();
        push_str(&mut m, "payload length ");
        push_decimal(&mut m, len as u64);
        push_str(&mut m, " exceeds u32::MAX — too large to frame");
        return Err(FramingError::Bincode(m));
    }
    let n: u32 = len as u32;
    let mut frame: Vec<u8> = Vec::new();
    frame.push((n % 256) as u8);
    frame.push(((n / 256) % 256) as u8);
    frame.push(((n / 65536) % 256) as u8);
    frame.push(((n / 16777216) % 256) as u8);
    let mut i: usize = 0;
    while i < len
        invariant
            len == payload.len(),
            n == len,
            0 <= i <= len,
            frame@ == le_bytes(n) + payload@.take(i as int),
        decreases len - i,
    {
        frame.push(payload[i]);
        proof {
            assert(payload@.take(i + 1) =~= payload@.take(i as int).push(payload@[i as int]));
        }
        i = i + 1;
    }
    assert(payload@.take(len as int) =~= payload@);
    Ok(frame)
}

/// The length a stream's 4-byte prefix claims.
pub open spec fn claimed_len(stream: Seq<u8>) -> int {
    le_value(stream.take(4))
}

/// Read one frame from the front of `stream`: the payload and the number of
/// bytes the frame occupies. A stream that ends before a complete frame is
/// an unexpected end; a claimed length over [`MAX_FRAME_SIZE`] is refused
/// before any payload is taken.
pub fn read_frame(stream: &[u8]) -> (r: Result<(Vec<u8>, usize), FramingError>)
    ensures
        stream@.len() < 4 ==> r == Err::<(Vec<u8>, usize), FramingError>(FramingError::UnexpectedEof),
        stream@.len() >= 4 && claimed_len(stream@) > MAX_FRAME_SIZE ==> r == Err::<
            (Vec<u8>, usize),
            FramingError,
        >(FramingError::Oversized { claimed: claimed_len(stream@) as usize, max: MAX_FRAME_SIZE }),
        stream@.len() >= 4 && claimed_len(stream@) <= MAX_FRAME_SIZE && stream@.len() < 4
            + claimed_len(stream@) ==> r == Err::<(Vec<u8>, usize), FramingError>(
            FramingError::UnexpectedEof,
        ),
        stream@.len() >= 4 && claimed_len(stream@) <= MAX_FRAME_SIZE && stream@.len() >= 4
            + claimed_len(stream@) ==> r is Ok && r->Ok_0.0@ == stream@.subrange(
            4,
            4 + claimed_len(stream@),
        ) && r->Ok_0.1 == 4 + claimed_len(stream@),
{
    if stream.len() < 4 {
        return Err(FramingError::UnexpectedEof);
    }
    let claimed: usize = stream[0] as usize + 256 * (stream[1] as usize) + 65536 * (
    stream[2] as usize) + 16777216 * (stream[3] as usize);
    proof {
        assert(stream@.take(4)[0] == stream@[0]);
        assert(stream@.take(4)[1] == stream@[1]);
        assert(stream@.take(4)[2] == stream@[2]);
        assert(stream@.take(4)[3] == stream@[3]);
    }
    if claimed > MAX_FRAME_SIZE {
        return Err(FramingError::Oversized { claimed, max: MAX_FRAME_SIZE });
    }
    if stream.len() - 4 < claimed {
        return Err(FramingError::UnexpectedEof);
    }
    let mut payload: Vec<u8> = Vec::new();
    let mut i: usize = 0;
    while i < claimed
        invariant
            claimed <= MAX_FRAME_SIZE,
            4 + claimed <= stream@.len(),
            0 <= i <= claimed,
            payload@ == stream@.subrange(4, 4 + i),
        decreases claimed - i,
    {
        payload.push(stream[4 + i]);
        proof {
            assert(stream@.subrange(4, 4 + i + 1) =~= stream@.subrange(4, 4 + i).push(
                stream@[4 + i],
            ));
        }
        i = i + 1;
    }
    Ok((payload, 4 + claimed))
}

/// Reading back a framed payload (followed by anything) yields the payload
/// and consumes exactly its frame.
pub proof fn law_frame_round_trip(payload: Seq<u8>, rest: Seq<u8>)
    requires
        payload.len() <= MAX_FRAME_SIZE,
    ensures
        ({
            let s = framed(payload) + rest;
            &&& s.len() >= 4
            &&& claimed_len(s) == payload.len()
            &&& s.len() >= 4 + claimed_len(s)
            &&& s.subrange(4, 4 + claimed_len(s)) == payload
        }),
{
    let s = framed(payload) + rest;
    law_le_round_trip(payload.len() as u32);
    assert(s.take(4) =~= le_bytes(payload.len() as u32));
    assert(s.subrange(4, 4 + payload.len() as int) =~= payload);
}

/// A decoded payload must be consumed exactly: trailing bytes are refused.
pub fn check_consumed(consumed: usize, claimed: usize) -> (r: Result<(), FramingError>)
    ensures
        consumed == claimed ==> r is Ok,
        consumed != claimed ==> (r matches Err(FramingError::Bincode(m)) && m@ == "decoded "@
            + decimal(consumed as nat) + " bytes but frame claimed "@ + decimal(claimed as nat)
            + " — trailing bytes not allowed"@),
{
    if consumed == claimed {
        Ok(())
    } else {
        let mut m = String::new();
        push_str(&mut m, "decoded ");
        push_decimal(&mut m, consumed as u64);
        push_str(&mut m, " bytes but frame claimed ");
        push_decimal(&mut m, claimed as u64);
        push_str(&mut m, " — trailing bytes not allowed");
        Err(FramingError::Bincode(m))
    }
}

} // verus!
