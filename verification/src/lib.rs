//! Indicator bars for a small always-on-top status widget.
//!
//! The crate turns readings of a handful of host subsystems (battery, volume,
//! bluetooth, microphone, network) into a grid of coloured pixels and copies
//! that grid, turned by a quarter, into the frame buffer of a display surface.
//! It also holds the decisions of the refresh loop that keeps the display
//! current. Running commands, talking to the window system and sleeping are
//! left to the program around it.

pub mod bar;
pub mod color;
pub mod fraction;
pub mod frame;
pub mod layout;
pub mod matrix;
pub mod pattern;
pub mod reading;
pub mod scheduler;
pub mod status;
pub mod survey;
pub mod text;
