//! A verified core for a desktop terminal emulator: color resolution,
//! a VT/ANSI interpreter over a grid of styled cells, a text-selection
//! model, and the state machine of a terminal session. I/O (the PTY
//! itself, file loading) lives outside; this crate holds the logic.

pub mod color;
pub mod config;
pub mod input;
pub mod manager;
pub mod selection;
pub mod term;
pub mod terminal;
pub mod text;
pub mod theme;
pub mod theme_file;
