//! A terminal emulator's core: the cell grid with its scrollback buffer,
//! index newtypes, escape sequence dispatch and configuration values.
use vstd::prelude::*;

pub mod activity_level;
pub mod activity_levels;
pub mod ansi;
pub mod build_info;
pub mod cli;
pub mod config;
pub mod egl;
pub mod event;
pub mod event_loop;
pub mod glutin;
pub mod grid;
pub mod index;
pub mod input;
pub mod io;
pub mod logging;
pub mod message_bar;
pub(crate) mod util;

verus! {

/// The mouse cursor shapes the terminal shows.
#[derive(Debug, Eq, PartialEq, Copy, Clone, Structural)]
pub enum MouseCursor {
    Arrow,
    Text,
}

/// A color in RGB space.
#[derive(Debug, Clone, Copy, PartialEq, Eq, Structural, Default)]
pub struct Rgb {
    pub r: u8,
    pub g: u8,
    pub b: u8,
}

} // verus!
