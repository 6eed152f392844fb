//! Interrupt request bits, as they appear in the IE and IF registers.

use vstd::prelude::*;

verus! {

/// Vertical blank: the PPU finished the visible lines.
pub const VBLANK: u8 = 0b0000_0001;

/// LCD status condition.
pub const LCDSTAT: u8 = 0b0000_0010;

/// TIMA overflowed.
pub const TIMER: u8 = 0b0000_0100;

/// A serial transfer completed.
pub const SERIAL: u8 = 0b0000_1000;

/// A joypad button was pressed.
pub const JOYPAD: u8 = 0b0001_0000;

} // verus!
