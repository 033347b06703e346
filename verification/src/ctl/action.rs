//! Side effects the control panel's update step asks its runner to perform.

use vstd::prelude::*;

use crate::ctl::state::{AdvertiseTrust, San};

verus! {

/// A side effect for the runner to perform after an update cycle.
#[derive(Debug, Clone, PartialEq, Eq)]
pub enum UpdateAction {
    /// Break the event loop and restore the terminal.
    Quit,
    /// Poll the server for its current status.
    RefreshStatus,
    /// Launch the daemon.
    StartServer,
    /// Ask the running daemon to shut down.
    StopServer,
    /// Load the effective server config and the reachable IPs.
    LoadConfig,
    /// Persist the bind address to the config file.
    SaveBind(String),
    /// Ensure / regenerate the TLS cert for the given SANs.
    EnsureCert(Vec<San>),
    /// List all tokens.
    LoadTokens,
    /// Create a token (optional name, read-only flag).
    CreateToken { name: Option<String>, read_only: bool },
    /// Revoke the token with the given name.
    RevokeToken(String),
    /// Build the pairing QR URI for an existing token (never revoked here);
    /// `seq` discards results of an overlay since closed.
    ShowTokenQr { token: String, read_only: bool, seq: u64, advertise_trust: AdvertiseTrust },
    /// Read the persisted cert fingerprint and SANs without generating.
    LoadCertInfo,
    /// Persist the advertised-trust setting.
    SaveAdvertiseTrust(AdvertiseTrust),
}

} // verus!
