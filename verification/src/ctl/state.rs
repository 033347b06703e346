//! The control panel's application state: screens and their navigation
//! order, the Config form's bind address, the advertised-trust setting and
//! the per-screen substates.

use vstd::prelude::*;
use vstd::string::StrSliceExecFns;

use crate::text::{ascii_lower, push_char, push_str, str_eq, to_ascii_lower, trim, trimmed};

verus! {

/// A Subject Alternative Name: an IP address or a DNS name.
#[derive(Debug, Clone, PartialEq, Eq)]
pub enum San {
    Ip(String),
    Dns(String),
}

impl San {
    /// Build a SAN from a host string (trimmed): an IP SAN when the trimmed
    /// host parses as an IP address (`is_ip`, decided by the caller's
    /// address parser), else a DNS SAN.
    pub fn from_host(host: &str, is_ip: bool) -> (r: Self)
        ensures
            is_ip ==> (r matches San::Ip(s) && s@ == trim(host@)),
            !is_ip ==> (r matches San::Dns(s) && s@ == trim(host@)),
    {
        let h = trimmed(host);
        if is_ip {
            San::Ip(h)
        } else {
            San::Dns(h)
        }
    }

    /// The SAN's text.
    pub fn value(&self) -> (r: &str)
        ensures
            r@ == (match self {
                San::Ip(s) => s@,
                San::Dns(s) => s@,
            }),
    {
        match self {
            San::Ip(s) => s.as_str(),
            San::Dns(s) => s.as_str(),
        }
    }
}

/// A plain snapshot of a running server's status.
#[derive(Debug, Clone, PartialEq, Eq)]
pub struct ServerInfo {
    pub version: String,
    pub bind_addr: String,
    pub pid: u32,
    pub uptime_secs: u64,
    /// Clients attached across all sessions.
    pub client_count: usize,
}

/// The navigable screens, in navigation order.
#[derive(Debug, Clone, Copy, PartialEq, Eq, Structural)]
pub enum Screen {
    Dashboard,
    Config,
    Cert,
    Tokens,
    Server,
}

/// The position of a screen in navigation order.
pub open spec fn screen_index(s: Screen) -> nat {
    match s {
        Screen::Dashboard => 0,
        Screen::Config => 1,
        Screen::Cert => 2,
        Screen::Tokens => 3,
        Screen::Server => 4,
    }
}

/// The screen at a position (taken modulo the number of screens).
pub open spec fn screen_at(i: nat) -> Screen {
    let k = i % 5;
    if k == 0 {
        Screen::Dashboard
    } else if k == 1 {
        Screen::Config
    } else if k == 2 {
        Screen::Cert
    } else if k == 3 {
        Screen::Tokens
    } else {
        Screen::Server
    }
}

/// The label of a screen.
pub open spec fn screen_label(s: Screen) -> Seq<char> {
    match s {
        Screen::Dashboard => "Dashboard"@,
        Screen::Config => "Config"@,
        Screen::Cert => "Cert"@,
        Screen::Tokens => "Tokens"@,
        Screen::Server => "Server"@,
    }
}

/// Different screens carry different labels.
pub proof fn law_screen_labels_distinct(a: Screen, b: Screen)
    requires
        a != b,
    ensures
        screen_label(a) != screen_label(b),
        screen_label(a).len() > 0,
{
    reveal_strlit("Dashboard");
    reveal_strlit("Config");
    reveal_strlit("Cert");
    reveal_strlit("Tokens");
    reveal_strlit("Server");
    if screen_label(a) == screen_label(b) {
        assert(screen_label(a)[0] == screen_label(b)[0]);
        assert(screen_label(a).len() == screen_label(b).len());
    }
}

impl Screen {
    /// All screens in navigation order.
    pub const ALL: [Screen; 5] = [
        Screen::Dashboard,
        Screen::Config,
        Screen::Cert,
        Screen::Tokens,
        Screen::Server,
    ];

    /// The label shown in tab lists and panel headings.
    pub fn label(self) -> (r: &'static str)
        ensures
            r@ == screen_label(self),
    {
        proof {
            reveal_strlit("Dashboard");
            reveal_strlit("Config");
            reveal_strlit("Cert");
            reveal_strlit("Tokens");
            reveal_strlit("Server");
        }
        match self {
            Screen::Dashboard => "Dashboard",
            Screen::Config => "Config",
            Screen::Cert => "Cert",
            Screen::Tokens => "Tokens",
            Screen::Server => "Server",
        }
    }

    /// The position of this screen in navigation order.
    pub fn index(self) -> (r: usize)
        ensures
            r == screen_index(self),
    {
        match self {
            Screen::Dashboard => 0,
            Screen::Config => 1,
            Screen::Cert => 2,
            Screen::Tokens => 3,
            Screen::Server => 4,
        }
    }

    fn at(i: usize) -> (r: Screen)
        requires
            i < 5,
        ensures
            r == screen_at(i as nat),
    {
        if i == 0 {
            Screen::Dashboard
        } else if i == 1 {
            Screen::Config
        } else if i == 2 {
            Screen::Cert
        } else if i == 3 {
            Screen::Tokens
        } else {
            Screen::Server
        }
    }

    /// The next screen in navigation order, wrapping at the end.
    pub fn next(self) -> (r: Screen)
        ensures
            r == screen_at(screen_index(self) + 1),
    {
        Self::at((self.index() + 1) % 5)
    }

    /// The previous screen in navigation order, wrapping at the start.
    pub fn prev(self) -> (r: Screen)
        ensures
            r == screen_at(screen_index(self) + 4),
    {
        Self::at((self.index() + 4) % 5)
    }
}

/// Navigating forward then back (or back then forward) returns to the same
/// screen.
pub proof fn law_next_prev_inverse(s: Screen)
    ensures
        screen_at(screen_index(screen_at(screen_index(s) + 1)) + 4) == s,
        screen_at(screen_index(screen_at(screen_index(s) + 4)) + 1) == s,
{
}

/// Which field of the Config form is focused.
#[derive(Debug, Clone, Copy, PartialEq, Eq, Structural, Default)]
pub enum ConfigField {
    #[default]
    Host,
    Port,
    IpPicker,
}

/// An IPv4 address (its four octets).
#[derive(Debug, Clone, Copy, PartialEq, Eq, Structural)]
pub struct Ipv4(pub u8, pub u8, pub u8, pub u8);

/// State of the Config screen (bind-address form and IP picker).
#[derive(Debug, Clone, Default, PartialEq, Eq)]
pub struct ConfigState {
    pub host: String,
    pub port: String,
    /// Non-loopback reachable IPv4 addresses.
    pub reachable_ips: Vec<Ipv4>,
    pub ip_cursor: usize,
    pub focused: ConfigField,
    pub cert_dir: String,
    /// Extra advertise SANs (from `ZELLIMSERVER_SAN`).
    pub advertise_sans: Vec<String>,
    pub status: String,
    pub loading: bool,
}

/// `i` is the position of the last `':'` in `s`.
pub open spec fn is_last_colon(s: Seq<char>, i: int) -> bool {
    &&& 0 <= i < s.len()
    &&& s[i] == ':'
    &&& forall|j: int| i < j < s.len() ==> s[j] != ':'
}

/// The position of the last `':'` in `s`, if any.
pub open spec fn last_colon(s: Seq<char>) -> Option<int> {
    if exists|i: int| is_last_colon(s, i) {
        Some(choose|i: int| is_last_colon(s, i))
    } else {
        None
    }
}

fn find_last_colon(s: &str) -> (r: Option<usize>)
    ensures
        match r {
            Some(i) => last_colon(s@) == Some(i as int),
            None => last_colon(s@) is None,
        },
{
    let n = s.unicode_len();
    let mut k: usize = n;
    while k > 0
        invariant
            k <= n,
            n == s@.len(),
            forall|j: int| k <= j < n ==> s@[j] != ':',
        decreases k,
    {
        if s.get_char(k - 1) == ':' {
            proof {
                assert(is_last_colon(s@, k - 1));
                let w = choose|i: int| is_last_colon(s@, i);
                if w < k - 1 {
                    assert(s@[k - 1] != ':');
                } else if w > k - 1 {
                }
            }
            return Some(k - 1);
        }
        k = k - 1;
    }
    None
}

impl ConfigState {
    /// The bind address as `"host:port"`.
    pub fn bind_addr(&self) -> (r: String)
        ensures
            r@ == self.host@ + seq![':'] + self.port@,
    {
        let mut s = String::new();
        push_str(&mut s, self.host.as_str());
        push_char(&mut s, ':');
        push_str(&mut s, self.port.as_str());
        assert(s@ =~= self.host@ + seq![':'] + self.port@);
        s
    }

    /// Fill the host and port fields from a bind address: split at the last
    /// `':'`; without one, the whole text is the host and the port defaults
    /// to `50051`. Nothing else changes.
    pub fn apply_bind_addr(&mut self, addr: &str)
        ensures
            match last_colon(addr@) {
                Some(i) => final(self).host@ == addr@.subrange(0, i) && final(self).port@
                    == addr@.subrange(i + 1, addr@.len() as int),
                None => final(self).host@ == addr@ && final(self).port@ == "50051"@,
            },
            final(self).reachable_ips == old(self).reachable_ips,
            final(self).ip_cursor == old(self).ip_cursor,
            final(self).focused == old(self).focused,
            final(self).cert_dir == old(self).cert_dir,
            final(self).advertise_sans == old(self).advertise_sans,
            final(self).status == old(self).status,
            final(self).loading == old(self).loading,
    {
        match find_last_colon(addr) {
            Some(i) => {
                let n = addr.unicode_len();
                self.host = addr.substring_char(0, i).to_owned();
                self.port = addr.substring_char(i + 1, n).to_owned();
            },
            None => {
                self.host = addr.to_owned();
                self.port = "50051".to_owned();
            },
        }
    }
}

/// Filling the form from an address that has a `':'` and reading it back
/// gives the address unchanged.
pub proof fn law_bind_addr_round_trip(addr: Seq<char>)
    requires
        last_colon(addr) is Some,
    ensures
        ({
            let i = last_colon(addr)->0;
            addr.subrange(0, i) + seq![':'] + addr.subrange(i + 1, addr.len() as int) == addr
        }),
{
    let i = choose|i: int| is_last_colon(addr, i);
    assert(addr.subrange(0, i) + seq![':'] + addr.subrange(i + 1, addr.len() as int) =~= addr);
}

/// Operator-declared trust mode of the pairing QR.
#[derive(Debug, Clone, Copy, PartialEq, Eq, Structural, Default)]
pub enum AdvertiseTrust {
    /// Decide from the running server's cert mode.
    #[default]
    Auto,
    /// Force system-CA trust (no fingerprint in the QR).
    Ca,
    /// Force fingerprint-pin trust.
    Pin,
}

/// The persistence text of a trust setting.
pub open spec fn persist_text(t: AdvertiseTrust) -> Seq<char> {
    match t {
        AdvertiseTrust::Auto => "auto"@,
        AdvertiseTrust::Ca => "ca"@,
        AdvertiseTrust::Pin => "pin"@,
    }
}

/// The trust setting a persisted text names (trimmed, ASCII
/// case-insensitive; anything unrecognised is `Auto`).
pub open spec fn parse_persisted(s: Seq<char>) -> AdvertiseTrust {
    let t = ascii_lower(trim(s));
    if t == "ca"@ {
        AdvertiseTrust::Ca
    } else if t == "pin"@ {
        AdvertiseTrust::Pin
    } else {
        AdvertiseTrust::Auto
    }
}

impl AdvertiseTrust {
    /// The next setting (Auto → Ca → Pin → Auto).
    pub fn cycle(self) -> (r: Self)
        ensures
            r == (match self {
                AdvertiseTrust::Auto => AdvertiseTrust::Ca,
                AdvertiseTrust::Ca => AdvertiseTrust::Pin,
                AdvertiseTrust::Pin => AdvertiseTrust::Auto,
            }),
    {
        match self {
            AdvertiseTrust::Auto => AdvertiseTrust::Ca,
            AdvertiseTrust::Ca => AdvertiseTrust::Pin,
            AdvertiseTrust::Pin => AdvertiseTrust::Auto,
        }
    }

    /// The label shown on the Cert screen.
    pub fn label(self) -> (r: &'static str)
        ensures
            r@ == (match self {
                AdvertiseTrust::Auto => "Auto"@,
                AdvertiseTrust::Ca => "CA (force)"@,
                AdvertiseTrust::Pin => "Pin (force)"@,
            }),
    {
        match self {
            AdvertiseTrust::Auto => "Auto",
            AdvertiseTrust::Ca => "CA (force)",
            AdvertiseTrust::Pin => "Pin (force)",
        }
    }

    /// The canonical persistence text (`"auto"`, `"ca"`, `"pin"`).
    pub fn persist_str(self) -> (r: &'static str)
        ensures
            r@ == persist_text(self),
    {
        match self {
            AdvertiseTrust::Auto => "auto",
            AdvertiseTrust::Ca => "ca",
            AdvertiseTrust::Pin => "pin",
        }
    }

    /// Read a persisted setting (see [`parse_persisted`]).
    pub fn from_persist_str(s: &str) -> (r: Self)
        ensures
            r == parse_persisted(s@),
    {
        let t = to_ascii_lower(trimmed(s).as_str());
        if str_eq(t.as_str(), "ca") {
            AdvertiseTrust::Ca
        } else if str_eq(t.as_str(), "pin") {
            AdvertiseTrust::Pin
        } else {
            AdvertiseTrust::Auto
        }
    }
}

/// Cycling three times returns to the same setting.
pub proof fn law_cycle_period_three(t: AdvertiseTrust)
    ensures
        ({
            let step = |x: AdvertiseTrust|
                match x {
                    AdvertiseTrust::Auto => AdvertiseTrust::Ca,
                    AdvertiseTrust::Ca => AdvertiseTrust::Pin,
                    AdvertiseTrust::Pin => AdvertiseTrust::Auto,
                };
            step(step(step(t))) == t
        }),
{
}

/// Reading back a persisted setting gives the setting.
pub proof fn law_persist_round_trip(t: AdvertiseTrust)
    ensures
        parse_persisted(persist_text(t)) == t,
{
    reveal_strlit("auto");
    reveal_strlit("ca");
    reveal_strlit("pin");
    let s = persist_text(t);
    assert(!crate::text::is_ws(s[0]));
    assert(!crate::text::is_ws(s.last()));
    assert(crate::text::trim_start(s) == s);
    assert(trim(s) == s);
    assert(ascii_lower(s) =~= s);
}

/// State of the Cert screen.
#[derive(Debug, Clone, Default, PartialEq, Eq)]
pub struct CertState {
    /// SHA-256 fingerprint of the current cert (lowercase hex), or empty.
    pub fingerprint: String,
    /// SANs in the certificate.
    pub sans: Vec<String>,
    pub status: String,
    pub loading: bool,
    /// The advertised-trust override of the pairing QR.
    pub advertise_trust: AdvertiseTrust,
}

/// Phase of the token create mini-form.
#[derive(Debug, Clone, Copy, PartialEq, Eq, Structural, Default)]
pub enum TokensFormPhase {
    #[default]
    Browsing,
    Creating,
}

/// One stored token, as listed.
#[derive(Debug, Clone, PartialEq, Eq)]
pub struct TokenRecord {
    pub name: String,
}

/// State of the Tokens screen.
#[derive(Debug, Clone, Default, PartialEq, Eq)]
pub struct TokensState {
    pub tokens: Vec<TokenRecord>,
    /// Index of the highlighted row.
    pub cursor: usize,
    pub loading: bool,
    pub status: String,
    /// The one-time minted secret: (name, plaintext, read_only).
    pub last_minted_secret: Option<(String, String, bool)>,
    pub form_phase: TokensFormPhase,
    pub form_name: String,
    pub form_read_only: bool,
}

impl TokensState {
    /// The name of the highlighted token, if the cursor is on one.
    pub fn selected_name(&self) -> (r: Option<&str>)
        ensures
            self.cursor < self.tokens.len() ==> r is Some && r->0@
                == self.tokens@[self.cursor as int].name@,
            self.cursor >= self.tokens.len() ==> r is None,
    {
        if self.cursor < self.tokens.len() {
            Some(self.tokens[self.cursor].name.as_str())
        } else {
            None
        }
    }
}

/// Phase of the QR overlay shown for a freshly minted token.
#[derive(Debug, Clone, PartialEq, Eq)]
pub enum QrOverlayPhase {
    Generating,
    Showing { uri: String, host: String, port: u16, fingerprint_short: String },
    Connected,
    Failed { err: String },
}

/// The QR overlay opened from the Tokens screen (closing it never revokes
/// the token).
#[derive(Debug, Clone, PartialEq, Eq)]
pub struct QrOverlay {
    pub phase: QrOverlayPhase,
    /// Stale-result guard.
    pub seq: u64,
    /// Attached-client count when the QR became ready.
    pub baseline_clients: usize,
    pub token_name: String,
    pub read_only: bool,
    pub tick_counter: u32,
}

/// State of the Server panel.
#[derive(Debug, Clone, Default, PartialEq, Eq)]
pub struct ServerPanelState {
    pub status: Option<ServerInfo>,
    pub stopped: bool,
    pub loading: bool,
    pub action_msg: String,
    pub tick_counter: u32,
}

/// The whole UI state.
#[derive(Debug, Clone, PartialEq, Eq)]
pub struct AppState {
    pub screen: Screen,
    pub should_quit: bool,
    pub config: ConfigState,
    pub cert: CertState,
    pub server: ServerPanelState,
    pub tokens: TokensState,
    pub qr_overlay: Option<QrOverlay>,
    pub qr_seq: u64,
}

impl AppState {
    /// The initial state: the Dashboard, nothing loaded, no overlay.
    pub fn new() -> (r: Self)
        ensures
            r.screen == Screen::Dashboard,
            !r.should_quit,
            r.qr_overlay is None,
            r.qr_seq == 0,
            r.config.host@.len() == 0,
            r.config.port@.len() == 0,
            r.config.reachable_ips.len() == 0,
            r.config.ip_cursor == 0,
            r.config.focused == ConfigField::Host,
            r.config.cert_dir@.len() == 0,
            r.config.advertise_sans.len() == 0,
            r.config.status@.len() == 0,
            !r.config.loading,
            r.cert.fingerprint@.len() == 0,
            r.cert.sans.len() == 0,
            r.cert.status@.len() == 0,
            !r.cert.loading,
            r.cert.advertise_trust == AdvertiseTrust::Auto,
            r.server.status is None,
            !r.server.stopped,
            !r.server.loading,
            r.server.action_msg@.len() == 0,
            r.server.tick_counter == 0,
            r.tokens.tokens.len() == 0,
            r.tokens.cursor == 0,
            !r.tokens.loading,
            r.tokens.status@.len() == 0,
            r.tokens.last_minted_secret is None,
            r.tokens.form_phase == TokensFormPhase::Browsing,
            r.tokens.form_name@.len() == 0,
            !r.tokens.form_read_only,
    {
        AppState {
            screen: Screen::Dashboard,
            should_quit: false,
            config: ConfigState {
                host: String::new(),
                port: String::new(),
                reachable_ips: Vec::new(),
                ip_cursor: 0,
                focused: ConfigField::Host,
                cert_dir: String::new(),
                advertise_sans: Vec::new(),
                status: String::new(),
                loading: false,
            },
            cert: CertState {
                fingerprint: String::new(),
                sans: Vec::new(),
                status: String::new(),
                loading: false,
                advertise_trust: AdvertiseTrust::Auto,
            },
            server: ServerPanelState {
                status: None,
                stopped: false,
                loading: false,
                action_msg: String::new(),
                tick_counter: 0,
            },
            tokens: TokensState {
                tokens: Vec::new(),
                cursor: 0,
                loading: false,
                status: String::new(),
                last_minted_secret: None,
                form_phase: TokensFormPhase::Browsing,
                form_name: String::new(),
                form_read_only: false,
            },
            qr_overlay: None,
            qr_seq: 0,
        }
    }

    /// Whether printable keys go to a focused text field: the Config
    /// screen's Host or Port field, or the Tokens create form.
    pub fn is_text_editing(&self) -> (r: bool)
        ensures
            r == (match self.screen {
                Screen::Config => self.config.focused == ConfigField::Host || self.config.focused
                    == ConfigField::Port,
                Screen::Tokens => self.tokens.form_phase == TokensFormPhase::Creating,
                _ => false,
            }),
    {
        match self.screen {
            Screen::Config => match self.config.focused {
                ConfigField::Host => true,
                ConfigField::Port => true,
                ConfigField::IpPicker => false,
            },
            Screen::Tokens => match self.tokens.form_phase {
                TokensFormPhase::Creating => true,
                TokensFormPhase::Browsing => false,
            },
            _ => false,
        }
    }
}

} // verus!
