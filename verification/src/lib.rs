//! A Game Boy (DMG) emulator core: registers, operands, instruction
//! decoding and execution, the memory bus, the timer and the scanline PPU.

pub mod bus;
pub mod constants;
pub mod controller;
pub mod cpu;
pub mod emu;
pub mod framebuffer;
pub mod gpu;
pub mod instructions;
pub mod location;
pub mod operand;
pub mod registers;
pub mod text;
pub mod texture;
pub mod timer;

use vstd::prelude::*;

verus! {

} // verus!
