//! Memory map constants

use vstd::prelude::*;

verus! {

/// Joypad input register
pub const JOYPAD: u16 = 0xFF00;

/// Serial transfer data
pub const SERIAL_DATA: u16 = 0xFF01;

/// Serial transfer control
pub const SERIAL_CTRL: u16 = 0xFF02;

/// Bootrom disable register
pub const BOOTROM_DISABLE: u16 = 0xFF50;

/// High RAM start
pub const HRAM_START: u16 = 0xFF80;

/// Interrupt flags
pub const IF: u16 = 0xFF0F;

/// Interrupt enable
pub const IE: u16 = 0xFFFF;

} // verus!
