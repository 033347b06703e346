//! Decisions behind the gRPC surface: relay routing, read-only gating, layout
//! and space views, session listing.

pub mod helpers;
pub mod layout;
pub mod pane_ops;
pub mod sessions;
pub mod spaces;
pub mod tokens;
