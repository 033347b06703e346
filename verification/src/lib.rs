//! muxr_core — the verified core of the muxr terminal-multiplexer bridge.

pub mod auth;
pub mod config;
pub mod ctl;
pub mod grpc;
pub mod herdr;
pub mod multiplexer;
pub mod pathtext;
pub mod text;
