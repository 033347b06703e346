//! The text the control panel's screens show: the Dashboard overview's
//! sections, the tab list, the Config form's fields and status line, and
//! the uptime format. Styling and layout are the renderer's; each line here
//! carries a tone the renderer maps to a style.

use vstd::prelude::*;
use vstd::string::{StrSliceExecFns, StringSliceAdditionalSpecFns};
use vstd::utf8::{encode_scalar, encode_utf8};

use crate::ctl::state::{AppState, ConfigState, Ipv4, Screen, ServerPanelState};
use crate::text::{decimal, push_char, push_decimal, push_str};

verus! {

/// The tone of a piece of text.
#[derive(Debug, Clone, Copy, PartialEq, Eq, Structural)]
pub enum Tone {
    Heading,
    Muted,
    Body,
    Accent,
    Good,
    Warn,
    Bad,
}

/// One line of a text panel.
#[derive(Debug, Clone, PartialEq, Eq)]
pub enum ViewLine {
    /// A section heading.
    Heading(String),
    /// A muted label followed by a value in the given tone.
    Field { label: String, value: String, tone: Tone },
    /// An empty line.
    Blank,
}

/// The spec form of a line: `(kind, label, value, tone)` with kind 0 a
/// heading (its text in `label`), 1 a field, 2 a blank line.
pub open spec fn line_view(l: ViewLine) -> (nat, Seq<char>, Seq<char>, Tone) {
    match l {
        ViewLine::Heading(t) => (0, t@, Seq::empty(), Tone::Heading),
        ViewLine::Field { label, value, tone } => (1, label@, value@, tone),
        ViewLine::Blank => (2, Seq::empty(), Seq::empty(), Tone::Body),
    }
}

/// The views of a sequence of lines.
pub open spec fn lines_view(ls: Seq<ViewLine>) -> Seq<(nat, Seq<char>, Seq<char>, Tone)> {
    ls.map_values(|l: ViewLine| line_view(l))
}

pub open spec fn heading(t: Seq<char>) -> (nat, Seq<char>, Seq<char>, Tone) {
    (0, t, Seq::empty(), Tone::Heading)
}

pub open spec fn field(label: Seq<char>, value: Seq<char>, tone: Tone) -> (
    nat,
    Seq<char>,
    Seq<char>,
    Tone,
) {
    (1, label, value, tone)
}

pub open spec fn blank() -> (nat, Seq<char>, Seq<char>, Tone) {
    (2, Seq::empty(), Seq::empty(), Tone::Body)
}

/// A human-readable uptime: `Ns`, `Nm Ns`, `Nh Nm` or `Nd Nh`.
pub open spec fn uptime_text(secs: nat) -> Seq<char> {
    if secs < 60 {
        decimal(secs) + "s"@
    } else if secs / 60 < 60 {
        decimal(secs / 60) + "m "@ + decimal(secs % 60) + "s"@
    } else if secs / 3600 < 24 {
        decimal(secs / 3600) + "h "@ + decimal((secs / 60) % 60) + "m"@
    } else {
        decimal(secs / 86400) + "d "@ + decimal((secs / 3600) % 24) + "h"@
    }
}

/// Format an uptime in seconds (see [`uptime_text`]).
pub fn format_uptime(secs: u64) -> (r: String)
    ensures
        r@ == uptime_text(secs as nat),
{
    let mut s = String::new();
    if secs < 60 {
        push_decimal(&mut s, secs);
        push_str(&mut s, "s");
        return s;
    }
    let mins = secs / 60;
    if mins < 60 {
        push_decimal(&mut s, mins);
        push_str(&mut s, "m ");
        push_decimal(&mut s, secs % 60);
        push_str(&mut s, "s");
        return s;
    }
    let hours = mins / 60;
    assert(hours == secs / 3600) by (nonlinear_arith)
        requires
            mins == secs / 60,
            hours == mins / 60,
    ;
    if hours < 24 {
        push_decimal(&mut s, hours);
        push_str(&mut s, "h ");
        push_decimal(&mut s, mins % 60);
        push_str(&mut s, "m");
        return s;
    }
    let days = hours / 24;
    assert(days == secs / 86400) by (nonlinear_arith)
        requires
            hours == secs / 3600,
            days == hours / 24,
    ;
    push_decimal(&mut s, days);
    push_str(&mut s, "d ");
    push_decimal(&mut s, hours % 24);
    push_str(&mut s, "h");
    s
}

/// The server panel is on its first load: a fetch is in flight and nothing
/// is known yet.
pub open spec fn first_load(srv: ServerPanelState) -> bool {
    srv.loading && srv.status is None && !srv.stopped
}

/// The dotted-quad text of an IPv4 address.
pub open spec fn ipv4_text(ip: Ipv4) -> Seq<char> {
    decimal(ip.0 as nat) + "."@ + decimal(ip.1 as nat) + "."@ + decimal(ip.2 as nat) + "."@
        + decimal(ip.3 as nat)
}

/// The addresses joined with `", "`.
pub open spec fn ip_list_text(ips: Seq<Ipv4>) -> Seq<char>
    decreases ips.len(),
{
    if ips.len() == 0 {
        Seq::empty()
    } else if ips.len() == 1 {
        ipv4_text(ips[0])
    } else {
        ip_list_text(ips.drop_last()) + ", "@ + ipv4_text(ips.last())
    }
}

fn push_ipv4(s: &mut String, ip: Ipv4)
    ensures
        final(s)@ == old(s)@ + ipv4_text(ip),
{
    push_decimal(s, ip.0 as u64);
    push_char(s, '.');
    push_decimal(s, ip.1 as u64);
    push_char(s, '.');
    push_decimal(s, ip.2 as u64);
    push_char(s, '.');
    push_decimal(s, ip.3 as u64);
    proof {
        reveal_strlit(".");
    }
    assert(s@ =~= old(s)@ + ipv4_text(ip));
}

/// Join addresses as dotted quads separated by `", "`.
pub fn ip_list(ips: &Vec<Ipv4>) -> (r: String)
    ensures
        r@ == ip_list_text(ips@),
{
    let mut s = String::new();
    let mut i: usize = 0;
    while i < ips.len()
        invariant
            0 <= i <= ips.len(),
            s@ == ip_list_text(ips@.take(i as int)),
        decreases ips.len() - i,
    {
        proof {
            assert(ips@.take(i + 1).drop_last() =~= ips@.take(i as int));
            assert(ips@.take(i + 1).last() == ips@[i as int]);
            if i == 0 {
                assert(ips@.take(1)[0] == ips@[0]);
            }
        }
        if i > 0 {
            push_str(&mut s, ", ");
        }
        push_ipv4(&mut s, ips[i]);
        proof {
            if i == 0 {
                assert(s@ =~= ip_list_text(ips@.take(1)));
            } else {
                assert(s@ =~= ip_list_text(ips@.take(i + 1)));
            }
        }
        i = i + 1;
    }
    assert(ips@.take(ips@.len() as int) =~= ips@);
    s
}

/// The first `c` characters of `fp` take exactly 16 bytes of UTF-8.
pub open spec fn ends_at_byte_16(fp: Seq<char>, c: int) -> bool {
    0 <= c <= fp.len() && encode_utf8(fp.take(c)).len() == 16
}

/// A fingerprint's 16th UTF-8 byte, if it has more than 16, ends a
/// character (where the short form cuts it).
pub open spec fn short_fp_cuttable(fp: Seq<char>) -> bool {
    encode_utf8(fp).len() > 16 ==> exists|c: int| ends_at_byte_16(fp, c)
}

/// A fingerprint's short form: its first 16 bytes and an ellipsis when it
/// is longer, else the whole fingerprint.
pub open spec fn short_fp(fp: Seq<char>) -> Seq<char> {
    if encode_utf8(fp).len() > 16 {
        fp.take(choose|c: int| ends_at_byte_16(fp, c)) + "…"@
    } else {
        fp
    }
}

proof fn lemma_encode_utf8_concat(a: Seq<char>, b: Seq<char>)
    ensures
        encode_utf8(a + b) == encode_utf8(a) + encode_utf8(b),
    decreases a.len(),
{
    if a.len() == 0 {
        assert(a + b =~= b);
        assert(encode_utf8(a) + encode_utf8(b) =~= encode_utf8(b));
    } else {
        assert((a + b).drop_first() =~= a.drop_first() + b);
        assert((a + b)[0] == a[0]);
        lemma_encode_utf8_concat(a.drop_first(), b);
        assert(encode_scalar(a[0] as u32) + (encode_utf8(a.drop_first()) + encode_utf8(b))
            =~= encode_scalar(a[0] as u32) + encode_utf8(a.drop_first()) + encode_utf8(b));
    }
}

/// Each further character adds at least one byte.
proof fn lemma_encode_utf8_prefix_grows(fp: Seq<char>, c1: int, c2: int)
    requires
        0 <= c1 < c2 <= fp.len(),
    ensures
        encode_utf8(fp.take(c1)).len() < encode_utf8(fp.take(c2)).len(),
    decreases c2 - c1,
{
    let p = fp.take(c2 - 1);
    assert(fp.take(c2) =~= p + seq![fp[c2 - 1]]);
    lemma_encode_utf8_concat(p, seq![fp[c2 - 1]]);
    assert(seq![fp[c2 - 1]].drop_first() =~= Seq::<char>::empty());
    assert(encode_utf8(seq![fp[c2 - 1]]).len() >= 1);
    if c1 < c2 - 1 {
        lemma_encode_utf8_prefix_grows(fp, c1, c2 - 1);
    }
}

/// At most one character count ends at byte 16.
proof fn lemma_ends_at_byte_16_unique(fp: Seq<char>, c1: int, c2: int)
    requires
        ends_at_byte_16(fp, c1),
        ends_at_byte_16(fp, c2),
    ensures
        c1 == c2,
{
    if c1 < c2 {
        lemma_encode_utf8_prefix_grows(fp, c1, c2);
    } else if c2 < c1 {
        lemma_encode_utf8_prefix_grows(fp, c2, c1);
    }
}

/// The number of characters of `fp` that take its first 16 bytes.
fn chars_in_16_bytes(fp: &str) -> (c: usize)
    requires
        encode_utf8(fp@).len() > 16,
        short_fp_cuttable(fp@),
    ensures
        ends_at_byte_16(fp@, c as int),
{
    let ghost target = choose|c: int| ends_at_byte_16(fp@, c);
    let n = fp.unicode_len();
    let mut c: usize = 0;
    loop
        invariant
            0 <= c <= target,
            ends_at_byte_16(fp@, target),
            n == fp@.len(),
        decreases target - c,
    {
        proof {
            assert(fp@.subrange(0, c as int) =~= fp@.take(c as int));
        }
        let len = fp.substring_char(0, c).len();
        proof {
            if (c as int) < target {
                lemma_encode_utf8_prefix_grows(fp@, c as int, target);
            }
        }
        if len == 16 {
            return c;
        }
        c = c + 1;
    }
}

/// The Daemon section of the overview.
pub open spec fn daemon_section(srv: ServerPanelState) -> Seq<(nat, Seq<char>, Seq<char>, Tone)> {
    seq![heading("  Daemon"@)] + if first_load(srv) {
        seq![field("    Status:  "@, "Querying…"@, Tone::Warn)]
    } else {
        match srv.status {
            Some(info) => seq![
                field("    Status:  "@, "● Running"@, Tone::Good),
                field("    Bind:    "@, info.bind_addr@, Tone::Accent),
                field("    PID:     "@, decimal(info.pid as nat), Tone::Body),
                field("    Uptime:  "@, uptime_text(info.uptime_secs as nat), Tone::Body),
                field(
                    "    Clients: "@,
                    decimal(info.client_count as nat),
                    if info.client_count > 0 {
                        Tone::Good
                    } else {
                        Tone::Muted
                    },
                ),
            ],
            None => seq![field("    Status:  "@, "○ Stopped"@, Tone::Bad)],
        }
    } + seq![blank()]
}

/// The Cert section of the overview.
pub open spec fn cert_section(fp: Seq<char>, san_count: nat) -> Seq<(nat, Seq<char>, Seq<char>, Tone)> {
    seq![heading("  Cert"@)] + if fp.len() == 0 {
        seq![field("    Fingerprint: "@, "(none — visit Cert screen)"@, Tone::Muted)]
    } else {
        seq![
            field("    Fingerprint: "@, short_fp(fp), Tone::Accent),
            field("    SANs:        "@, decimal(san_count), Tone::Body),
        ]
    } + seq![blank()]
}

/// The Tokens section of the overview.
pub open spec fn tokens_section(count: nat) -> Seq<(nat, Seq<char>, Seq<char>, Tone)> {
    seq![heading("  Tokens"@), field("    Count: "@, decimal(count), Tone::Body), blank()]
}

/// The Network section of the overview.
pub open spec fn network_section(cfg: ConfigState) -> Seq<(nat, Seq<char>, Seq<char>, Tone)> {
    seq![heading("  Network"@)] + if cfg.host@.len() == 0 {
        seq![field("    Bind: "@, "(not yet loaded)"@, Tone::Muted)]
    } else {
        seq![field("    Bind: "@, cfg.host@ + seq![':'] + cfg.port@, Tone::Accent)] + if cfg.reachable_ips.len()
            == 0 {
            seq![field("    IPs:  "@, "(none discovered)"@, Tone::Muted)]
        } else {
            seq![field("    IPs:  "@, ip_list_text(cfg.reachable_ips@), Tone::Body)]
        }
    }
}

fn heading_line(t: &str) -> (r: ViewLine)
    ensures
        line_view(r) == heading(t@),
{
    ViewLine::Heading(t.to_owned())
}

fn field_line(label: &str, value: String, tone: Tone) -> (r: ViewLine)
    ensures
        line_view(r) == field(label@, value@, tone),
{
    ViewLine::Field { label: label.to_owned(), value, tone }
}

fn push_line(out: &mut Vec<ViewLine>, l: ViewLine)
    ensures
        lines_view(final(out)@) == lines_view(old(out)@).push(line_view(l)),
{
    out.push(l);
    assert(lines_view(out@) =~= lines_view(old(out)@).push(line_view(l)));
}

fn decimal_text(n: u64) -> (r: String)
    ensures
        r@ == decimal(n as nat),
{
    let mut s = String::new();
    push_decimal(&mut s, n);
    assert(s@ =~= decimal(n as nat));
    s
}

fn push_daemon(out: &mut Vec<ViewLine>, srv: &ServerPanelState)
    ensures
        lines_view(final(out)@) == lines_view(old(out)@) + daemon_section(*srv),
{
    let ghost start = lines_view(out@);
    push_line(out, heading_line("  Daemon"));
    if srv.loading && srv.status.is_none() && !srv.stopped {
        push_line(out, field_line("    Status:  ", "Querying…".to_owned(), Tone::Warn));
    } else {
        match &srv.status {
            Some(info) => {
                push_line(out, field_line("    Status:  ", "● Running".to_owned(), Tone::Good));
                push_line(out, field_line("    Bind:    ", info.bind_addr.clone(), Tone::Accent));
                push_line(out, field_line("    PID:     ", decimal_text(info.pid as u64), Tone::Body));
                push_line(out, field_line("    Uptime:  ", format_uptime(info.uptime_secs), Tone::Body));
                let tone = if info.client_count > 0 {
                    Tone::Good
                } else {
                    Tone::Muted
                };
                push_line(out, field_line("    Clients: ", decimal_text(info.client_count as u64), tone));
            },
            None => {
                push_line(out, field_line("    Status:  ", "○ Stopped".to_owned(), Tone::Bad));
            },
        }
    }
    push_line(out, ViewLine::Blank);
    assert(lines_view(out@) =~= start + daemon_section(*srv));
}

fn push_cert(out: &mut Vec<ViewLine>, fingerprint: &str, san_count: usize)
    requires
        short_fp_cuttable(fingerprint@),
    ensures
        lines_view(final(out)@) == lines_view(old(out)@) + cert_section(fingerprint@, san_count as nat),
{
    let ghost start = lines_view(out@);
    push_line(out, heading_line("  Cert"));
    let n = fingerprint.unicode_len();
    if n == 0 {
        push_line(out, field_line("    Fingerprint: ", "(none — visit Cert screen)".to_owned(), Tone::Muted));
    } else {
        let byte_len = fingerprint.as_bytes().len();
        let short = if byte_len > 16 {
            let c = chars_in_16_bytes(fingerprint);
            proof {
                let target = choose|k: int| ends_at_byte_16(fingerprint@, k);
                lemma_ends_at_byte_16_unique(fingerprint@, c as int, target);
                assert(fingerprint@.subrange(0, c as int) =~= fingerprint@.take(c as int));
            }
            let mut s = fingerprint.substring_char(0, c).to_owned();
            push_str(&mut s, "…");
            assert(s@ == short_fp(fingerprint@));
            s
        } else {
            assert(fingerprint.spec_bytes() == encode_utf8(fingerprint@));
            let whole = fingerprint.to_owned();
            assert(whole@ == short_fp(fingerprint@));
            whole
        };
        assert(short@ == short_fp(fingerprint@));
        push_line(out, field_line("    Fingerprint: ", short, Tone::Accent));
        push_line(out, field_line("    SANs:        ", decimal_text(san_count as u64), Tone::Body));
    }
    push_line(out, ViewLine::Blank);
    assert(lines_view(out@) =~= start + cert_section(fingerprint@, san_count as nat));
}

fn push_tokens(out: &mut Vec<ViewLine>, count: usize)
    ensures
        lines_view(final(out)@) == lines_view(old(out)@) + tokens_section(count as nat),
{
    let ghost start = lines_view(out@);
    push_line(out, heading_line("  Tokens"));
    push_line(out, field_line("    Count: ", decimal_text(count as u64), Tone::Body));
    push_line(out, ViewLine::Blank);
    assert(lines_view(out@) =~= start + tokens_section(count as nat));
}

fn push_network(out: &mut Vec<ViewLine>, cfg: &ConfigState)
    ensures
        lines_view(final(out)@) == lines_view(old(out)@) + network_section(*cfg),
{
    let ghost start = lines_view(out@);
    push_line(out, heading_line("  Network"));
    if cfg.host.as_str().unicode_len() == 0 {
        push_line(out, field_line("    Bind: ", "(not yet loaded)".to_owned(), Tone::Muted));
    } else {
        push_line(out, field_line("    Bind: ", cfg.bind_addr(), Tone::Accent));
        if cfg.reachable_ips.len() == 0 {
            push_line(out, field_line("    IPs:  ", "(none discovered)".to_owned(), Tone::Muted));
        } else {
            push_line(out, field_line("    IPs:  ", ip_list(&cfg.reachable_ips), Tone::Body));
        }
    }
    assert(lines_view(out@) =~= start + network_section(*cfg));
}

/// The Dashboard overview's four sections (Daemon, Cert, Tokens, Network).
pub fn overview_lines(state: &AppState) -> (r: Vec<ViewLine>)
    requires
        short_fp_cuttable(state.cert.fingerprint@),
    ensures
        lines_view(r@) == daemon_section(state.server) + cert_section(
            state.cert.fingerprint@,
            state.cert.sans.len() as nat,
        ) + tokens_section(state.tokens.tokens.len() as nat) + network_section(state.config),
{
    let mut out: Vec<ViewLine> = Vec::new();
    assert(lines_view(out@) =~= Seq::<(nat, Seq<char>, Seq<char>, Tone)>::empty());
    push_daemon(&mut out, &state.server);
    push_cert(&mut out, state.cert.fingerprint.as_str(), state.cert.sans.len());
    push_tokens(&mut out, state.tokens.tokens.len());
    push_network(&mut out, &state.config);
    assert(lines_view(out@) =~= daemon_section(state.server) + cert_section(
        state.cert.fingerprint@,
        state.cert.sans.len() as nat,
    ) + tokens_section(state.tokens.tokens.len() as nat) + network_section(state.config));
    out
}

/// A tab-list entry: `"▶ "` before the active screen's label, two spaces
/// before the others.
pub open spec fn tab_text(screen: Screen, active: Screen) -> Seq<char> {
    (if screen == active {
        "▶ "@
    } else {
        "  "@
    }) + crate::ctl::state::screen_label(screen)
}

/// The tab list: each screen's label, the active one marked `▶ ` and in
/// the accent tone, the others indented and muted.
pub fn tab_lines(active: Screen) -> (r: Vec<(String, Tone)>)
    ensures
        r.len() == 5,
        forall|i: int|
            #![trigger r@[i]]
            0 <= i < 5 ==> (r@[i].1 == (if crate::ctl::state::screen_at(i as nat) == active {
                Tone::Accent
            } else {
                Tone::Muted
            })) && r@[i].0@ == tab_text(crate::ctl::state::screen_at(i as nat), active),
{
    let mut out: Vec<(String, Tone)> = Vec::new();
    let mut i: usize = 0;
    while i < 5
        invariant
            0 <= i <= 5,
            out.len() == i,
            forall|k: int|
                #![trigger out@[k]]
                0 <= k < i ==> (out@[k].1 == (if crate::ctl::state::screen_at(k as nat) == active {
                    Tone::Accent
                } else {
                    Tone::Muted
                })) && out@[k].0@ == tab_text(crate::ctl::state::screen_at(k as nat), active),
        decreases 5 - i,
    {
        let screen = if i == 0 {
            Screen::Dashboard
        } else if i == 1 {
            Screen::Config
        } else if i == 2 {
            Screen::Cert
        } else if i == 3 {
            Screen::Tokens
        } else {
            Screen::Server
        };
        assert(screen == crate::ctl::state::screen_at(i as nat));
        let is_active = screen == active;
        let mut text = String::new();
        if is_active {
            push_str(&mut text, "▶ ");
        } else {
            push_str(&mut text, "  ");
        }
        proof {
            reveal_strlit("▶ ");
            reveal_strlit("  ");
        }
        push_str(&mut text, screen.label());
        let tone = if is_active {
            Tone::Accent
        } else {
            Tone::Muted
        };
        out.push((text, tone));
        i = i + 1;
    }
    out
}

/// A Config form field's displayed value: ` <value> `, or ` … ` when empty.
pub fn form_value(value: &str) -> (r: String)
    ensures
        r@ == (if value@.len() == 0 {
            " … "@
        } else {
            " "@ + value@ + " "@
        }),
{
    let mut s = String::new();
    if value.unicode_len() == 0 {
        push_str(&mut s, " … ");
        proof {
            reveal_strlit(" … ");
        }
        assert(s@ =~= " … "@);
    } else {
        push_str(&mut s, " ");
        push_str(&mut s, value);
        push_str(&mut s, " ");
        proof {
            reveal_strlit(" ");
        }
        assert(s@ =~= " "@ + value@ + " "@);
    }
    s
}

/// A status text starts with `Error`.
pub open spec fn is_error_status(status: Seq<char>) -> bool {
    status.len() >= 5 && status.take(5) == "Error"@
}

/// The Config screen's status line: `Loading config…` while loading with no
/// status yet, else the status; an `Error…` status is an error, a pending
/// load a warning, anything else ok.
pub fn config_status_line(loading: bool, status: &str) -> (r: (String, Tone))
    ensures
        r.1 == (if is_error_status(status@) {
            Tone::Bad
        } else if loading {
            Tone::Warn
        } else {
            Tone::Good
        }),
        r.0@ == (if loading && status@.len() == 0 {
            "Loading config…"@
        } else {
            status@
        }),
{
    proof {
        reveal_strlit("Error");
    }
    let n = status.unicode_len();
    let is_err = n >= 5 && crate::text::str_eq(status.substring_char(0, 5), "Error");
    proof {
        if n >= 5 {
            assert(status@.subrange(0, 5) =~= status@.take(5));
        }
    }
    let tone = if is_err {
        Tone::Bad
    } else if loading {
        Tone::Warn
    } else {
        Tone::Good
    };
    let text = if loading && n == 0 {
        "Loading config…".to_owned()
    } else {
        status.to_owned()
    };
    (text, tone)
}

/// The Config screen's IP picker entries: each address indented by two
/// spaces.
pub fn ip_picker_items(ips: &Vec<Ipv4>) -> (r: Vec<String>)
    ensures
        r.len() == ips.len(),
        forall|i: int| #![trigger r@[i]] 0 <= i < r.len() ==> r@[i]@ == "  "@ + ipv4_text(ips@[i]),
{
    let mut out: Vec<String> = Vec::new();
    let mut i: usize = 0;
    while i < ips.len()
        invariant
            0 <= i <= ips.len(),
            out.len() == i,
            forall|k: int| #![trigger out@[k]] 0 <= k < i ==> out@[k]@ == "  "@ + ipv4_text(ips@[k]),
        decreases ips.len() - i,
    {
        let mut s = String::new();
        push_str(&mut s, "  ");
        push_ipv4(&mut s, ips[i]);
        out.push(s);
        i = i + 1;
    }
    out
}

} // verus!
