//! I/O register addresses of the timer.

use vstd::prelude::*;

verus! {

/// Divider: the upper byte of the internal counter.
pub const DIV: u16 = 0xFF04;

/// Timer counter.
pub const TIMA: u16 = 0xFF05;

/// Timer modulo, reloaded into TIMA when it overflows.
pub const TMA: u16 = 0xFF06;

/// Timer control: enable bit and clock select.
pub const TAC: u16 = 0xFF07;

} // verus!
