//! The control panel's pure core: application state, side-effect actions,
//! the pairing URI and the text the screens show.

pub mod action;
pub mod payload;
pub mod state;
pub mod view;
