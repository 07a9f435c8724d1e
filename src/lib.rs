use vstd::prelude::*;

pub mod animation;
pub mod glyph;
pub mod line;
pub mod mailbox;
pub mod roulette;

verus! {

/// Carriage return: the Enter key of a serial terminal.
pub const ENTER: u8 = 0x0D;

/// Line feed.
pub const LINE_FEED: u8 = 0x0A;

/// Backspace.
pub const BACKSPACE: u8 = 0x08;

/// Space.
pub const SPACE: u8 = 0x20;

/// Escape.
pub const ESCAPE: u8 = 0x1B;

} // verus!
