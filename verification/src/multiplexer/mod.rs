//! Backend-neutral multiplexer vocabulary, session routing and detection.

pub mod detect;
pub mod routing;
pub mod types;
pub mod zellij;
