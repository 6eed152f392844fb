//! Screen and timing constants.

use vstd::prelude::*;

verus! {

/// CPU clock speed in T-cycles per second.
pub const GB_CYCLE_SPEED: usize = 4_194_304;

/// Cycles run per displayed frame (about 60 frames per second).
pub const CYCLES_PER_FRAME: usize = GB_CYCLE_SPEED / 60;

/// Height of the LCD in pixels.
pub const WINDOW_HEIGHT: u32 = 144;

/// Width of the LCD in pixels.
pub const WINDOW_WIDTH: u32 = 160;

/// Width of the background map in pixels.
pub const MAP_WIDTH: u32 = 256;

} // verus!
