//! Server configuration: precedence resolution of the effective settings,
//! the config-file template and bind-address update, the TLS / transport
//! mode (cert source) and the plaintext-h2c bind-safety guard.
//!
//! Precedence of the bind address (highest first): CLI flag, environment
//! (`ZELLIMSERVER_BIND`), config file, default `127.0.0.1:50051`. The file
//! system and environment are read at the edge and handed in as values.

use vstd::prelude::*;
use vstd::string::StrSliceExecFns;

use crate::pathtext::{join, parent, std_join, std_parent, text_opt};
use crate::text::{push_str, str_eq};

verus! {

/// Default bind address used when nothing else overrides it.
pub const DEFAULT_BIND: &'static str = "127.0.0.1:50051";

/// The text of [`DEFAULT_BIND`].
pub open spec fn default_bind() -> Seq<char> {
    "127.0.0.1:50051"@
}

/// The on-disk config (every field optional; missing ones use defaults).
#[derive(Debug, Clone, Default, PartialEq, Eq)]
pub struct FileConfig {
    pub bind_addr: Option<String>,
    pub cert_dir: Option<String>,
    pub log_path: Option<String>,
}

/// The fully-resolved effective configuration.
#[derive(Debug, Clone, PartialEq, Eq)]
pub struct EffectiveConfig {
    /// The address + port the server binds to.
    pub bind_addr: String,
    /// Directory containing `server.crt` and `server.key`.
    pub cert_dir: String,
    /// Path of the server's log (daemon mode).
    pub log_path: String,
    /// Path of the config file that was read (or would be written).
    pub config_file: String,
}

impl EffectiveConfig {
    /// The human-readable summary, one field per line.
    pub open spec fn summary(self) -> Seq<char> {
        "bind_addr  = "@ + self.bind_addr@ + "\ncert_dir   = "@ + self.cert_dir@
            + "\nlog_path   = "@ + self.log_path@ + "\nconfig_file= "@ + self.config_file@
    }

    /// Human-readable summary, one field per line.
    pub fn display(&self) -> (r: String)
        ensures
            r@ == self.summary(),
    {
        let mut s = String::new();
        push_str(&mut s, "bind_addr  = ");
        push_str(&mut s, self.bind_addr.as_str());
        push_str(&mut s, "\ncert_dir   = ");
        push_str(&mut s, self.cert_dir.as_str());
        push_str(&mut s, "\nlog_path   = ");
        push_str(&mut s, self.log_path.as_str());
        push_str(&mut s, "\nconfig_file= ");
        push_str(&mut s, self.config_file.as_str());
        assert(s@ =~= self.summary());
        s
    }
}

/// The config file inside the data dir: `<data_dir>/config.toml`.
pub fn config_file_path(data_dir: &str) -> (r: String)
    ensures
        r@ == std_join(data_dir@, "config.toml"@),
{
    join(data_dir, "config.toml")
}

/// The default log path inside the data dir: `<data_dir>/muxrd.log`.
pub fn default_log_path(data_dir: &str) -> (r: String)
    ensures
        r@ == std_join(data_dir@, "muxrd.log"@),
{
    join(data_dir, "muxrd.log")
}

/// The text of an optional string slice.
pub open spec fn str_opt(o: Option<&str>) -> Option<Seq<char>> {
    match o {
        Some(s) => Some(s@),
        None => None,
    }
}

/// The bind address chosen from a CLI flag, an environment value and the
/// config file's setting: the first present one, else the default.
pub open spec fn resolved_bind(cli: Option<Seq<char>>, env: Option<Seq<char>>, file: Option<Seq<char>>) -> Seq<char> {
    match cli {
        Some(b) => b,
        None => match env {
            Some(e) => e,
            None => match file {
                Some(f) => f,
                None => default_bind(),
            },
        },
    }
}

/// The effective configuration: bind address CLI > env > file > default;
/// cert dir file > data dir; log path file > `<data_dir>/muxrd.log`.
pub fn resolve(
    bind_override: Option<&str>,
    env_bind: Option<&str>,
    file_cfg: &FileConfig,
    data_dir: &str,
    config_file: &str,
) -> (r: EffectiveConfig)
    ensures
        r.bind_addr@ == resolved_bind(str_opt(bind_override), str_opt(env_bind), text_opt(file_cfg.bind_addr)),
        r.cert_dir@ == (match file_cfg.cert_dir {
            Some(d) => d@,
            None => data_dir@,
        }),
        r.log_path@ == (match file_cfg.log_path {
            Some(p) => p@,
            None => std_join(data_dir@, "muxrd.log"@),
        }),
        r.config_file@ == config_file@,
{
    proof {
        reveal_strlit("127.0.0.1:50051");
    }
    let bind_addr = match bind_override {
        Some(b) => b.to_owned(),
        None => match env_bind {
            Some(e) => e.to_owned(),
            None => match &file_cfg.bind_addr {
                Some(f) => f.clone(),
                None => DEFAULT_BIND.to_owned(),
            },
        },
    };
    let cert_dir = match &file_cfg.cert_dir {
        Some(d) => d.clone(),
        None => data_dir.to_owned(),
    };
    let log_path = match &file_cfg.log_path {
        Some(p) => p.clone(),
        None => default_log_path(data_dir),
    };
    EffectiveConfig { bind_addr, cert_dir, log_path, config_file: config_file.to_owned() }
}

/// The commented template written when no config file exists.
pub open spec fn template_text(data_dir: Seq<char>) -> Seq<char> {
    "# muxrd configuration file\n# All fields are optional; missing fields use built-in defaults.\n#\n# bind_addr = \"127.0.0.1:50051\"\n# cert_dir  = \""@
        + data_dir + "\"\n# log_path  = \""@ + std_join(data_dir, "muxrd.log"@) + "\"\n"@
}

/// The commented config-file template (every setting at its default).
pub fn config_template(data_dir: &str) -> (r: String)
    ensures
        r@ == template_text(data_dir@),
{
    let mut s = String::new();
    push_str(
        &mut s,
        "# muxrd configuration file\n# All fields are optional; missing fields use built-in defaults.\n#\n# bind_addr = \"127.0.0.1:50051\"\n# cert_dir  = \"",
    );
    push_str(&mut s, data_dir);
    push_str(&mut s, "\"\n# log_path  = \"");
    let log = default_log_path(data_dir);
    push_str(&mut s, log.as_str());
    push_str(&mut s, "\"\n");
    assert(s@ =~= template_text(data_dir@));
    s
}

/// What persisting a new bind address writes: the current settings with
/// the bind address replaced, staged in `.config.toml.tmp` beside the
/// config file and then renamed over it.
#[derive(Debug, Clone, PartialEq, Eq)]
pub struct BindAddrUpdate {
    pub updated: FileConfig,
    pub temp_path: String,
}

/// `r` is the planned update of the bind address of `current` to
/// `bind_addr` for the config file at `config_path`.
pub open spec fn set_bind_addr_result(
    current: FileConfig,
    bind_addr: Seq<char>,
    config_path: Seq<char>,
    r: Result<BindAddrUpdate, String>,
) -> bool {
    match std_parent(config_path) {
        Some(dir) => r is Ok && r->Ok_0.updated.bind_addr is Some && r->Ok_0.updated.bind_addr->0@
            == bind_addr && r->Ok_0.updated.cert_dir == current.cert_dir && r->Ok_0.updated.log_path
            == current.log_path && r->Ok_0.temp_path@ == std_join(dir, ".config.toml.tmp"@),
        None => r is Err && r->Err_0@ == "config file has no parent directory"@,
    }
}

/// Plan the update of the config file's bind address, keeping every other
/// setting. A config path without a parent directory is refused.
pub fn set_bind_addr(current: FileConfig, bind_addr: &str, config_path: &str) -> (r: Result<
    BindAddrUpdate,
    String,
>)
    ensures
        set_bind_addr_result(current, bind_addr@, config_path@, r),
{
    let dir = match parent(config_path) {
        Some(d) => d,
        None => return Err("config file has no parent directory".to_owned()),
    };
    let temp_path = join(dir.as_str(), ".config.toml.tmp");
    let updated = FileConfig {
        bind_addr: Some(bind_addr.to_owned()),
        cert_dir: current.cert_dir,
        log_path: current.log_path,
    };
    Ok(BindAddrUpdate { updated, temp_path })
}

/// A bind address written by [`set_bind_addr`] is what the next resolution
/// yields when neither the CLI nor the environment overrides it.
pub proof fn law_set_bind_addr_round_trips(
    current: FileConfig,
    bind_addr: Seq<char>,
    config_path: Seq<char>,
    r: Result<BindAddrUpdate, String>,
)
    requires
        set_bind_addr_result(current, bind_addr, config_path, r),
        std_parent(config_path) is Some,
    ensures
        r is Ok,
        resolved_bind(None, None, text_opt(r->Ok_0.updated.bind_addr)) == bind_addr,
{
}

// ─── Cert source resolution ──────────────────────────────────────────────────

/// The resolved TLS / transport mode of the server.
#[derive(Debug, Clone, PartialEq, Eq)]
pub enum CertSource {
    /// Auto-generate (or reuse) the self-signed cert in the data dir.
    SelfSigned,
    /// Serve TLS with a caller-supplied cert + key PEM pair.
    External { cert: String, key: String },
    /// Serve plaintext HTTP/2 (must sit behind a TLS-terminating proxy).
    H2c,
}

/// The lightweight tag of a [`CertSource`].
#[derive(Debug, Clone, Copy, PartialEq, Eq, Structural)]
pub enum CertMode {
    SelfSigned,
    External,
    H2c,
}

/// The tag of a cert source.
pub open spec fn mode_of(src: CertSource) -> CertMode {
    match src {
        CertSource::SelfSigned => CertMode::SelfSigned,
        CertSource::External { .. } => CertMode::External,
        CertSource::H2c => CertMode::H2c,
    }
}

impl CertSource {
    /// The lightweight tag of this source.
    pub fn mode(&self) -> (r: CertMode)
        ensures
            r == mode_of(*self),
    {
        match self {
            CertSource::SelfSigned => CertMode::SelfSigned,
            CertSource::External { .. } => CertMode::External,
            CertSource::H2c => CertMode::H2c,
        }
    }
}

impl From<CertSource> for CertMode {
    fn from(src: CertSource) -> (r: CertMode) {
        src.mode()
    }
}

impl vstd::std_specs::convert::FromSpecImpl<CertSource> for CertMode {
    open spec fn obeys_from_spec() -> bool {
        true
    }

    open spec fn from_spec(src: CertSource) -> CertMode {
        mode_of(src)
    }
}

/// A switch value counts as set: present, non-empty and not `"0"`.
pub open spec fn truthy(v: Option<Seq<char>>) -> bool {
    match v {
        Some(s) => s.len() > 0 && s != "0"@,
        None => false,
    }
}

/// A path value counts: present and non-empty.
pub open spec fn non_empty(v: Option<Seq<char>>) -> Option<Seq<char>> {
    match v {
        Some(s) => if s.len() > 0 {
            Some(s)
        } else {
            None
        },
        None => None,
    }
}

/// Why a cert-source combination is refused.
pub open spec fn cert_error(h2c: bool, cert: Option<Seq<char>>, key: Option<Seq<char>>) -> Option<
    Seq<char>,
> {
    if h2c && (cert is Some || key is Some) {
        Some(
            "--insecure-h2c serves no TLS; remove --tls-cert/--tls-key (or ZELLIMSERVER_TLS_CERT/ZELLIMSERVER_TLS_KEY) when using h2c mode"@,
        )
    } else if h2c {
        None
    } else if cert is Some && key is None {
        Some(
            "--tls-cert requires --tls-key (or ZELLIMSERVER_TLS_KEY); both paths must be provided together"@,
        )
    } else if cert is None && key is Some {
        Some(
            "--tls-key requires --tls-cert (or ZELLIMSERVER_TLS_CERT); both paths must be provided together"@,
        )
    } else {
        None
    }
}

fn opt_text(o: Option<&str>) -> (r: Option<String>)
    ensures
        text_opt(r) == non_empty(
            match o {
                Some(s) => Some(s@),
                None => None,
            },
        ),
{
    match o {
        Some(s) => if s.unicode_len() > 0 {
            Some(s.to_owned())
        } else {
            None
        },
        None => None,
    }
}

/// Resolve the cert source from the CLI values and the environment values
/// (`ZELLIMSERVER_TLS_CERT`, `ZELLIMSERVER_TLS_KEY`, `ZELLIMSERVER_H2C`):
/// a CLI path beats the environment's (empty environment values count as
/// unset); h2c beats an external cert, which beats self-signed. h2c with a
/// cert or key, or only one of cert and key, is refused.
pub fn resolve_cert_source(
    cli_cert: Option<String>,
    cli_key: Option<String>,
    cli_h2c: bool,
    env_cert: Option<&str>,
    env_key: Option<&str>,
    env_h2c: Option<&str>,
) -> (r: Result<CertSource, String>)
    ensures
        ({
            let cert = match cli_cert {
                Some(c) => Some(c@),
                None => non_empty(
                    match env_cert {
                        Some(s) => Some(s@),
                        None => None,
                    },
                ),
            };
            let key = match cli_key {
                Some(k) => Some(k@),
                None => non_empty(
                    match env_key {
                        Some(s) => Some(s@),
                        None => None,
                    },
                ),
            };
            let h2c = cli_h2c || truthy(
                match env_h2c {
                    Some(s) => Some(s@),
                    None => None,
                },
            );
            match cert_error(h2c, cert, key) {
                Some(m) => r is Err && r->Err_0@ == m,
                None => if h2c {
                    r == Ok::<CertSource, String>(CertSource::H2c)
                } else if cert is Some {
                    r matches Ok(CertSource::External { cert: c, key: k }) && c@ == cert->0 && k@
                        == key->0
                } else {
                    r == Ok::<CertSource, String>(CertSource::SelfSigned)
                },
            }
        }),
{
    proof {
        reveal_strlit("0");
    }
    let cert = match cli_cert {
        Some(c) => Some(c),
        None => opt_text(env_cert),
    };
    let key = match cli_key {
        Some(k) => Some(k),
        None => opt_text(env_key),
    };
    let h2c = cli_h2c || match env_h2c {
        Some(v) => v.unicode_len() > 0 && !str_eq(v, "0"),
        None => false,
    };
    if h2c && (cert.is_some() || key.is_some()) {
        return Err(
            "--insecure-h2c serves no TLS; remove --tls-cert/--tls-key (or ZELLIMSERVER_TLS_CERT/ZELLIMSERVER_TLS_KEY) when using h2c mode".to_owned(),
        );
    }
    if h2c {
        return Ok(CertSource::H2c);
    }
    match (cert, key) {
        (Some(c), Some(k)) => Ok(CertSource::External { cert: c, key: k }),
        (Some(_), None) => Err(
            "--tls-cert requires --tls-key (or ZELLIMSERVER_TLS_KEY); both paths must be provided together".to_owned(),
        ),
        (None, Some(_)) => Err(
            "--tls-key requires --tls-cert (or ZELLIMSERVER_TLS_CERT); both paths must be provided together".to_owned(),
        ),
        (None, None) => Ok(CertSource::SelfSigned),
    }
}

// ─── H2c bind-safety guard ───────────────────────────────────────────────────

/// An IP address to bind.
#[derive(Debug, Clone, Copy, PartialEq, Eq, Structural)]
pub enum IpAddress {
    V4(u8, u8, u8, u8),
    V6(u16, u16, u16, u16, u16, u16, u16, u16),
}

/// A loopback address: `127.0.0.0/8`, or IPv6 `::1`.
pub open spec fn loopback(ip: IpAddress) -> bool {
    match ip {
        IpAddress::V4(a, _, _, _) => a == 127,
        IpAddress::V6(a, b, c, d, e, f, g, h) => a == 0 && b == 0 && c == 0 && d == 0 && e == 0
            && f == 0 && g == 0 && h == 1,
    }
}

/// Whether `ip` is a loopback address.
pub fn is_loopback(ip: IpAddress) -> (r: bool)
    ensures
        r == loopback(ip),
{
    match ip {
        IpAddress::V4(a, _, _, _) => a == 127,
        IpAddress::V6(a, b, c, d, e, f, g, h) => a == 0 && b == 0 && c == 0 && d == 0 && e == 0
            && f == 0 && g == 0 && h == 1,
    }
}

/// The refusal of plaintext h2c on a non-loopback address.
pub open spec fn h2c_refusal(addr_text: Seq<char>) -> Seq<char> {
    "refusing to bind h2c (plaintext gRPC) on non-loopback address "@ + addr_text
        + ". Plaintext gRPC on a public/LAN address exposes API tokens and terminal output in the clear. If you are running behind a TLS-terminating reverse proxy (e.g. Traefik + Let's Encrypt, Cloudflare), re-run with --i-know-this-is-behind-a-proxy (or set ZELLIMSERVER_H2C_ALLOW_PUBLIC=1) to acknowledge the risk. To serve TLS directly, omit --insecure-h2c."@
}

/// Refuse plaintext h2c on a non-loopback address unless the operator
/// acknowledged the proxy in front of it. Other modes, and loopback
/// addresses, are always allowed. `addr_text` is the socket address as
/// displayed in the refusal.
pub fn check_h2c_bind_safety(
    cert_source: &CertSource,
    ip: IpAddress,
    addr_text: &str,
    allow_public: bool,
) -> (r: Result<(), String>)
    ensures
        (*cert_source != CertSource::H2c || loopback(ip) || allow_public) ==> r is Ok,
        !(*cert_source != CertSource::H2c || loopback(ip) || allow_public) ==> r is Err
            && r->Err_0@ == h2c_refusal(addr_text@),
{
    let is_h2c = match cert_source {
        CertSource::H2c => true,
        _ => false,
    };
    if !is_h2c {
        return Ok(());
    }
    if is_loopback(ip) {
        return Ok(());
    }
    if allow_public {
        Ok(())
    } else {
        let mut m = String::new();
        push_str(&mut m, "refusing to bind h2c (plaintext gRPC) on non-loopback address ");
        push_str(&mut m, addr_text);
        push_str(
            &mut m,
            ". Plaintext gRPC on a public/LAN address exposes API tokens and terminal output in the clear. If you are running behind a TLS-terminating reverse proxy (e.g. Traefik + Let's Encrypt, Cloudflare), re-run with --i-know-this-is-behind-a-proxy (or set ZELLIMSERVER_H2C_ALLOW_PUBLIC=1) to acknowledge the risk. To serve TLS directly, omit --insecure-h2c.",
        );
        Err(m)
    }
}

} // verus!
