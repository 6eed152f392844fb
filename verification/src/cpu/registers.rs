//! A plain register file that starts at the cartridge entry point.

use crate::registers::join_bytes;
use vstd::prelude::*;

verus! {

#[derive(Default)]
pub struct Registers {
    pub a: u8,
    pub b: u8,
    pub c: u8,
    pub d: u8,
    pub e: u8,
    pub f: u8,  //flags
    pub h: u8,
    pub l: u8,
    pub sp: u16,
    pub pc: u16,
}

impl Registers {
    /// All registers zero except PC, which points at the entry point 0x100.
    pub fn new() -> (r: Self)
        ensures
            r.a == 0 && r.b == 0 && r.c == 0 && r.d == 0 && r.e == 0,
            r.f == 0 && r.h == 0 && r.l == 0 && r.sp == 0,
            r.pc == 0x100,
    {
        Registers { a: 0, b: 0, c: 0, d: 0, e: 0, f: 0, h: 0, l: 0, sp: 0, pc: 0x100 }
    }

    /// The AF pair as a word.
    pub fn af(&self) -> (r: u16)
        ensures
            r == crate::registers::word(self.a, self.f),
    {
        join_bytes(self.a, self.f)
    }

    /// The BC pair as a word.
    pub fn bc(&self) -> (r: u16)
        ensures
            r == crate::registers::word(self.b, self.c),
    {
        join_bytes(self.b, self.c)
    }

    /// The DE pair as a word.
    pub fn de(&self) -> (r: u16)
        ensures
            r == crate::registers::word(self.d, self.e),
    {
        join_bytes(self.d, self.e)
    }

    /// The HL pair as a word.
    pub fn hl(&self) -> (r: u16)
        ensures
            r == crate::registers::word(self.h, self.l),
    {
        join_bytes(self.h, self.l)
    }
}

} // verus!
