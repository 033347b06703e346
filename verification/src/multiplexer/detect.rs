//! Backend auto-detection: the verdict of each backend's probe, and which
//! backends a server runs.
//!
//! The probes' I/O (locating the `zellij` binary, running `zellij --version`,
//! checking herdr's socket, one `workspace.list` call) happens at the edge;
//! their outcomes are handed in here as plain values.

use vstd::prelude::*;
use vstd::string::StrSliceExecFns;

use crate::multiplexer::routing::{kind_token, BackendKind};
use crate::text::{is_ws, push_char, push_str, str_eq, ws};

verus! {

/// Environment variable that bypasses the zellij version check.
pub const SKIP_VERSION_CHECK_ENV: &'static str = "ZELLIMSERVER_SKIP_VERSION_CHECK";

/// Timeout of the `zellij --version` subprocess, in seconds.
pub const VERSION_CHECK_TIMEOUT_SECS: u64 = 5;

/// The zellij version this server speaks the IPC of.
pub const LINKED_ZELLIJ_VERSION: &'static str = "0.44.3";

/// The non-whitespace run at the very end of `s` (empty when `s` ends in
/// whitespace).
pub open spec fn tail_run(s: Seq<char>) -> Seq<char>
    decreases s.len(),
{
    if s.len() == 0 || is_ws(s.last()) {
        Seq::empty()
    } else {
        tail_run(s.drop_last()).push(s.last())
    }
}

/// The last whitespace-separated token of `s` (empty when there is none).
pub open spec fn last_token(s: Seq<char>) -> Seq<char>
    decreases s.len(),
{
    if s.len() == 0 {
        Seq::empty()
    } else if is_ws(s.last()) {
        last_token(s.drop_last())
    } else {
        tail_run(s)
    }
}

/// The version string of `zellij --version` output: its last
/// whitespace-separated token (`"zellij 0.44.3\n"` → `"0.44.3"`), empty
/// when there is none.
pub fn parse_zellij_version(output: &str) -> (r: String)
    ensures
        r@ == last_token(output@),
{
    let n = output.unicode_len();
    let mut end: usize = n;
    assert(output@.take(n as int) =~= output@);
    while end > 0 && ws(output.get_char(end - 1))
        invariant
            end <= n,
            n == output@.len(),
            last_token(output@.take(end as int)) == last_token(output@),
        decreases end,
    {
        proof {
            assert(output@.take(end as int).drop_last() =~= output@.take(end - 1));
        }
        end = end - 1;
    }
    let mut start: usize = end;
    while start > 0 && !ws(output.get_char(start - 1))
        invariant
            start <= end <= n,
            n == output@.len(),
            tail_run(output@.take(end as int)) == tail_run(output@.take(start as int))
                + output@.subrange(start as int, end as int),
        decreases start,
    {
        proof {
            assert(output@.take(start as int).drop_last() =~= output@.take(start - 1));
            assert(output@.subrange(start - 1, end as int) =~= seq![output@[start - 1]]
                + output@.subrange(start as int, end as int));
        }
        start = start - 1;
    }
    proof {
        if end > 0 {
            assert(output@.take(end as int).last() == output@[end - 1]);
        }
        if start > 0 {
            assert(output@.take(start as int).last() == output@[start - 1]);
        }
        assert(tail_run(output@.take(start as int)) =~= Seq::<char>::empty());
        assert(output@.subrange(start as int, end as int) =~= tail_run(output@.take(end as int)));
    }
    let mut r = String::new();
    let mut i: usize = start;
    while i < end
        invariant
            start <= i <= end <= n,
            n == output@.len(),
            r@ == output@.subrange(start as int, i as int),
        decreases end - i,
    {
        push_char(&mut r, output.get_char(i));
        proof {
            assert(output@.subrange(start as int, i + 1) =~= output@.subrange(
                start as int,
                i as int,
            ).push(output@[i as int]));
        }
        i = i + 1;
    }
    r
}

/// The skip switch is set: present, non-empty and not `"0"`.
pub open spec fn skip_set(v: Option<Seq<char>>) -> bool {
    match v {
        Some(s) => s.len() > 0 && s != "0"@,
        None => false,
    }
}

/// What running `zellij --version` gave.
#[derive(Debug, Clone, PartialEq, Eq)]
pub enum VersionRun {
    /// The subprocess could not be run, timed out, or its thread died.
    Failed,
    /// It exited with a failure status.
    ExitedWithFailure,
    /// It exited successfully with this standard output.
    Succeeded(String),
}

/// Whether zellij is usable. When version checking is disabled, the
/// executable only has to be on PATH; otherwise it must also report
/// exactly the expected release.
pub open spec fn zellij_verdict(skip: Option<Seq<char>>, binary_found: bool, run: VersionRun) -> bool {
    if skip_set(skip) {
        binary_found
    } else if !binary_found {
        false
    } else {
        match run {
            VersionRun::Succeeded(out) => {
                let v = last_token(out@);
                v.len() > 0 && v == "0.44.3"@
            },
            _ => false,
        }
    }
}

/// zellij is usable only when its executable is on PATH. With version
/// checking switched off (a non-empty value other than `"0"`), that is
/// enough; otherwise `zellij --version` must have succeeded and its last
/// whitespace-separated token must be exactly the linked release `0.44.3`.
pub proof fn law_zellij_verdict(skip: Option<Seq<char>>, binary_found: bool, run: VersionRun)
    ensures
        zellij_verdict(skip, binary_found, run) ==> binary_found,
        skip matches Some(v) && v.len() > 0 && v != "0"@ ==> zellij_verdict(skip, binary_found, run)
            == binary_found,
        !skip_set(skip) ==> (zellij_verdict(skip, binary_found, run) <==> binary_found
            && run is Succeeded && last_token(run->Succeeded_0@) == "0.44.3"@),
{
    reveal_strlit("0.44.3");
}

/// Probe whether the zellij backend is usable, from the skip switch's value,
/// whether the binary was found on PATH, and what `zellij --version` gave
/// (not consulted when the switch is set or the binary is missing).
pub fn probe_zellij(skip: Option<&str>, binary_found: bool, run: &VersionRun) -> (r: bool)
    ensures
        r == zellij_verdict(
            match skip {
                Some(s) => Some(s@),
                None => None,
            },
            binary_found,
            *run,
        ),
{
    proof {
        reveal_strlit("0");
        reveal_strlit("0.44.3");
    }
    let skip_on = match skip {
        Some(v) => v.unicode_len() > 0 && !str_eq(v, "0"),
        None => false,
    };
    if skip_on {
        return binary_found;
    }
    if !binary_found {
        return false;
    }
    match run {
        VersionRun::Succeeded(out) => {
            let installed = parse_zellij_version(out.as_str());
            installed.as_str().unicode_len() > 0 && str_eq(installed.as_str(), LINKED_ZELLIJ_VERSION)
        },
        _ => false,
    }
}

/// Probe whether herdr is usable: its JSON-API socket exists and a
/// `workspace.list` call over it succeeded.
pub fn probe_herdr(socket_exists: bool, workspace_list_ok: bool) -> (r: bool)
    ensures
        r == (socket_exists && workspace_list_ok),
{
    socket_exists && workspace_list_ok
}

/// Which backends a server runs. A requested backend must pass its probe
/// (only that probe counts); otherwise every backend whose probe passed, in
/// declaration order (zellij, then herdr), at least one.
pub fn detect_backends(override_kind: Option<BackendKind>, zellij_ok: bool, herdr_ok: bool) -> (r:
    Result<Vec<BackendKind>, String>)
    ensures
        match override_kind {
            Some(kind) => {
                let ok = match kind {
                    BackendKind::Zellij => zellij_ok,
                    BackendKind::Herdr => herdr_ok,
                };
                &&& ok ==> r is Ok && r->Ok_0@ == seq![kind]
                &&& !ok ==> r is Err && r->Err_0@ == "requested backend "@ + kind_token(kind)
                    + " not available: probe failed"@
            },
            None => {
                &&& (zellij_ok || herdr_ok) ==> r is Ok && r->Ok_0@ == (if zellij_ok {
                    seq![BackendKind::Zellij]
                } else {
                    Seq::empty()
                }) + (if herdr_ok {
                    seq![BackendKind::Herdr]
                } else {
                    Seq::empty()
                })
                &&& !(zellij_ok || herdr_ok) ==> r is Err && r->Err_0@
                    == "No usable backend: install zellij 0.44.3 or start herdr"@
            },
        },
{
    match override_kind {
        Some(kind) => {
            let ok = match kind {
                BackendKind::Zellij => zellij_ok,
                BackendKind::Herdr => herdr_ok,
            };
            if ok {
                let mut v: Vec<BackendKind> = Vec::new();
                v.push(kind);
                Ok(v)
            } else {
                let mut m = String::new();
                push_str(&mut m, "requested backend ");
                push_str(&mut m, kind.token());
                push_str(&mut m, " not available: probe failed");
                Err(m)
            }
        },
        None => {
            let mut available: Vec<BackendKind> = Vec::new();
            if zellij_ok {
                available.push(BackendKind::Zellij);
            }
            if herdr_ok {
                available.push(BackendKind::Herdr);
            }
            if available.len() == 0 {
                return Err("No usable backend: install zellij 0.44.3 or start herdr".to_owned());
            }
            proof {
                assert(available@ =~= (if zellij_ok {
                    seq![BackendKind::Zellij]
                } else {
                    Seq::empty()
                }) + (if herdr_ok {
                    seq![BackendKind::Herdr]
                } else {
                    Seq::empty()
                }));
            }
            Ok(available)
        },
    }
}

} // verus!
