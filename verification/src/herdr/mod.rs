//! herdr backend: id registries, JSON-API control planning, wire framing.

pub mod api;
pub mod backend;
pub mod control;
pub mod paths;
pub mod registry;
pub mod relay;
pub mod transcode;
pub mod wire;
