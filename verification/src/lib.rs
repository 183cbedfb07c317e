//! Model and rules of an ambient sound mixer: presets of noise layers, the
//! per-layer volume and mute state, the daemon's request protocol, the
//! command line and the text that the status report and the terminal view show.

pub mod cli;
pub mod controls;
pub mod daemon;
pub mod engine;
pub mod preset;
pub mod source;
pub mod text;
