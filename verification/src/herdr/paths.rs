//! Resolution of herdr's two Unix-domain socket paths: the JSON-API control
//! socket and the wire relay socket beside it.
//!
//! 1. A non-empty `HERDR_SOCKET_PATH` **is** the JSON-API socket path.
//! 2. Otherwise the JSON-API socket is `<config-dir>/herdr.sock`, where
//!    `<config-dir>` is `$XDG_CONFIG_HOME/herdr`, else `$HOME/.config/herdr`,
//!    else `<temp-dir>/herdr`.
//!
//! The wire socket always shares the API socket's directory and stem, with a
//! `-client.sock` suffix. The environment is read by the caller and handed
//! in as plain values; path arithmetic is `std::path`'s.

use vstd::prelude::*;
use vstd::string::StrSliceExecFns;

use crate::pathtext::{file_stem, join, parent, std_file_stem, std_join, std_parent, text_opt};
use crate::text::push_str;

verus! {

/// Environment variable that overrides the herdr JSON-API socket path.
pub const HERDR_SOCKET_PATH_ENV: &'static str = "HERDR_SOCKET_PATH";

/// The environment values the socket resolution reads.
#[derive(Debug, Clone, PartialEq, Eq)]
pub struct HerdrEnv {
    /// `HERDR_SOCKET_PATH`, when set.
    pub socket_path: Option<String>,
    /// `XDG_CONFIG_HOME`, when set.
    pub xdg_config_home: Option<String>,
    /// `HOME`, when set.
    pub home: Option<String>,
    /// The system temporary directory.
    pub temp_dir: String,
}

/// The wire socket beside an API socket: its directory joined with
/// `<stem>-client.sock` (stem `herdr` when the path has none).
pub open spec fn wire_path_of(api: Seq<char>) -> Seq<char> {
    let stem = match std_file_stem(api) {
        Some(s) => s,
        None => "herdr"@,
    };
    let dir = match std_parent(api) {
        Some(p) => p,
        None => Seq::empty(),
    };
    std_join(dir, stem + "-client.sock"@)
}

/// The JSON-API socket: a non-empty override, else `<config_dir>/herdr.sock`.
pub open spec fn api_path_of(env_override: Option<Seq<char>>, config_dir: Seq<char>) -> Seq<char> {
    match env_override {
        Some(p) => if p.len() > 0 {
            p
        } else {
            std_join(config_dir, "herdr.sock"@)
        },
        None => std_join(config_dir, "herdr.sock"@),
    }
}

/// herdr's default config directory: `$XDG_CONFIG_HOME/herdr`, else
/// `$HOME/.config/herdr`, else `<temp>/herdr` (empty values count as unset).
pub open spec fn config_dir_of(xdg: Option<Seq<char>>, home: Option<Seq<char>>, temp: Seq<char>) -> Seq<
    char,
> {
    if xdg is Some && xdg->0.len() > 0 {
        std_join(xdg->0, "herdr"@)
    } else if home is Some && home->0.len() > 0 {
        std_join(std_join(home->0, ".config"@), "herdr"@)
    } else {
        std_join(temp, "herdr"@)
    }
}

/// Derive the wire (client) socket path from a JSON-API socket path:
/// `…/herdr.sock` → `…/herdr-client.sock`, whatever the API socket's
/// extension.
pub fn derive_wire_socket_path(api: &str) -> (r: String)
    ensures
        r@ == wire_path_of(api@),
{
    let stem = match file_stem(api) {
        Some(s) => s,
        None => "herdr".to_owned(),
    };
    let dir = match parent(api) {
        Some(p) => p,
        None => String::new(),
    };
    let mut name = stem;
    push_str(&mut name, "-client.sock");
    join(dir.as_str(), name.as_str())
}

/// The JSON-API socket path for an optional override and a config dir.
pub fn resolve_api_socket_path_inner(env_override: Option<&str>, config_dir: &str) -> (r: String)
    ensures
        r@ == api_path_of(
            match env_override {
                Some(p) => Some(p@),
                None => None,
            },
            config_dir@,
        ),
{
    match env_override {
        Some(path) => {
            if path.unicode_len() > 0 {
                path.to_owned()
            } else {
                join(config_dir, "herdr.sock")
            }
        },
        None => join(config_dir, "herdr.sock"),
    }
}

/// herdr's default config directory for the given environment values.
pub fn default_config_dir(env: &HerdrEnv) -> (r: String)
    ensures
        r@ == config_dir_of(text_opt(env.xdg_config_home), text_opt(env.home), env.temp_dir@),
{
    match &env.xdg_config_home {
        Some(dir) => {
            if dir.as_str().unicode_len() > 0 {
                return join(dir.as_str(), "herdr");
            }
        },
        None => {},
    }
    match &env.home {
        Some(home) => {
            if home.as_str().unicode_len() > 0 {
                let config = join(home.as_str(), ".config");
                return join(config.as_str(), "herdr");
            }
        },
        None => {},
    }
    join(env.temp_dir.as_str(), "herdr")
}

/// The JSON-API socket path for the given environment values.
pub fn resolve_api_socket_path(env: &HerdrEnv) -> (r: String)
    ensures
        r@ == api_path_of(
            text_opt(env.socket_path),
            config_dir_of(text_opt(env.xdg_config_home), text_opt(env.home), env.temp_dir@),
        ),
{
    let dir = default_config_dir(env);
    match &env.socket_path {
        Some(p) => resolve_api_socket_path_inner(Some(p.as_str()), dir.as_str()),
        None => resolve_api_socket_path_inner(None, dir.as_str()),
    }
}

/// The resolved pair of herdr socket paths for one herdr instance.
#[derive(Debug, Clone, PartialEq, Eq)]
pub struct HerdrSocketPaths {
    /// Line-delimited JSON-API control socket.
    pub api: String,
    /// Binary wire terminal-relay socket.
    pub wire: String,
}

impl HerdrSocketPaths {
    /// Resolve both socket paths from the given environment values.
    pub fn resolve(env: &HerdrEnv) -> (r: Self)
        ensures
            r.api@ == api_path_of(
                text_opt(env.socket_path),
                config_dir_of(text_opt(env.xdg_config_home), text_opt(env.home), env.temp_dir@),
            ),
            r.wire@ == wire_path_of(r.api@),
    {
        let api = resolve_api_socket_path(env);
        let wire = derive_wire_socket_path(api.as_str());
        HerdrSocketPaths { api, wire }
    }

    /// Build the pair from an explicit JSON-API socket path.
    pub fn from_api_socket(api: &str) -> (r: Self)
        ensures
            r.api@ == api@,
            r.wire@ == wire_path_of(api@),
    {
        let wire = derive_wire_socket_path(api);
        HerdrSocketPaths { api: api.to_owned(), wire }
    }
}

} // verus!
