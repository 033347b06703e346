# muxr_core

The verified core of muxr: a remote-control server for terminal multiplexers
(zellij and herdr) and its pairing/control panel.

- `src/` — the library, proved with Verus. Its trusted edge is a handful of
  `#[verifier::external_body]` wrappers whose contracts are believed, not
  proved: `authorization_bytes` (`http::HeaderMap::get`), `encode_url_safe_no_pad`
  (base64's URL-safe engine), `debug_str` and `debug_text` (`format!("{:?}")`),
  `file_stem`, `parent` and `join` (`std::path::Path`) and `push_char`
  (`String::push`), plus the declared outside types `HeaderMap` and
  `HeaderValue`. Everything else is verified:
  - `auth` — bearer-token checks of the gRPC API (fail-closed read-only).
  - `config` — settings precedence, config template and bind-address update,
    TLS / plaintext-h2c mode and its bind-safety guard.
  - `multiplexer` — backend kinds, session-id routing, detection verdicts,
    the neutral layout types and the zellij mappings.
  - `herdr` — herdr's JSON-API requests and reply interpretation, the stable
    id registries, layout transcoding, socket-path resolution, the binary
    wire framing and relay messages, and the herdr backend's session model.
  - `grpc` — the decisions behind each RPC: relay routing, layout overrides,
    spaces, sessions, pane operations and tokens.
  - `ctl` — the control panel's state machine, view lines and pairing URI.
  - `text`, `pathtext` — string helpers and the `std::path` operations used.
- `tests/` — unit and scenario tests run against the compiled library.
- `app/` — the I/O edge (sockets, files, environment, serde/bincode forms of
  the protocol types, attached-client counters).
