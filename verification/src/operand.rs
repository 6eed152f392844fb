//! Typed operands of Game Boy CPU instructions.
//!
//! 8-bit and 16-bit sources and destinations are kept apart by type, so an
//! instruction can never silently truncate a word into a byte.

use crate::bus::{lemma_cycle, Bus, BusView};
use crate::cpu::{advanced, CPU};
use crate::registers::wrap16;
use vstd::prelude::*;

verus! {

/// 8-bit registers: A, B, C, D, E, H, L, F
#[derive(Debug, Clone, Copy, PartialEq, Eq, Hash, Structural)]
pub enum Reg8 {
    A,
    B,
    C,
    D,
    E,
    H,
    L,
    F,
}

/// 16-bit register pairs: BC, DE, HL, SP, AF
#[derive(Debug, Clone, Copy, PartialEq, Eq, Hash, Structural)]
pub enum Reg16 {
    BC,
    DE,
    HL,
    SP,
    AF,
}

/// 8-bit operand sources (for reading values)
#[derive(Debug, Clone, Copy, PartialEq, Eq, Hash, Structural)]
pub enum Src8 {
    /// Register direct: A, B, C, D, E, H, L
    Reg(Reg8),
    /// Memory indirect via 16-bit register: [BC], [DE], [HL]
    Indirect(Reg16),
    /// Immediate byte from instruction stream
    Imm,
    /// High memory via C register: [0xFF00 + C]
    HighMemC,
    /// High memory via immediate: [0xFF00 + n]
    HighMemImm,
    /// Memory at immediate 16-bit address: [nn]
    MemImm,
}

/// 8-bit operand destinations (for writing values)
#[derive(Debug, Clone, Copy, PartialEq, Eq, Hash, Structural)]
pub enum Dst8 {
    /// Register direct: A, B, C, D, E, H, L
    Reg(Reg8),
    /// Memory indirect via 16-bit register: [BC], [DE], [HL]
    Indirect(Reg16),
    /// High memory via C register: [0xFF00 + C]
    HighMemC,
    /// High memory via immediate: [0xFF00 + n]
    HighMemImm,
    /// Memory at immediate 16-bit address: [nn]
    MemImm,
}

/// 16-bit operand sources
#[derive(Debug, Clone, Copy, PartialEq, Eq, Hash, Structural)]
pub enum Src16 {
    /// Register pair: BC, DE, HL, SP, AF
    Reg(Reg16),
    /// Immediate word from instruction stream
    Imm,
}

/// 16-bit operand destinations
#[derive(Debug, Clone, Copy, PartialEq, Eq, Hash, Structural)]
pub enum Dst16 {
    /// Register pair: BC, DE, HL, SP
    Reg(Reg16),
    /// Memory at immediate address (for SP store)
    MemImm,
}

/// Operand that can be both read and written (8-bit)
#[derive(Debug, Clone, Copy, PartialEq, Eq, Hash, Structural)]
pub enum RmwOperand8 {
    Reg(Reg8),
    Indirect(Reg16),
}

impl RmwOperand8 {
    /// Returns true if this is a memory operand (affects cycle timing)
    pub fn is_memory(self) -> (r: bool)
        ensures
            r == (self is Indirect),
    {
        match self {
            RmwOperand8::Indirect(_) => true,
            RmwOperand8::Reg(_) => false,
        }
    }
}

impl Src8 {
    /// Number of immediate bytes this operand consumes (spec form).
    pub open spec fn spec_imm_bytes(self) -> nat {
        match self {
            Src8::Imm | Src8::HighMemImm => 1,
            Src8::MemImm => 2,
            Src8::Reg(_) | Src8::Indirect(_) | Src8::HighMemC => 0,
        }
    }

    /// Number of immediate bytes this operand consumes
    pub fn imm_bytes(self) -> (r: usize)
        ensures
            r == self.spec_imm_bytes(),
    {
        match self {
            Src8::Imm | Src8::HighMemImm => 1,
            Src8::MemImm => 2,
            Src8::Reg(_) | Src8::Indirect(_) | Src8::HighMemC => 0,
        }
    }
}

impl Dst8 {
    /// Number of immediate bytes this operand consumes (spec form).
    pub open spec fn spec_imm_bytes(self) -> nat {
        match self {
            Dst8::HighMemImm => 1,
            Dst8::MemImm => 2,
            Dst8::Reg(_) | Dst8::Indirect(_) | Dst8::HighMemC => 0,
        }
    }

    /// Number of immediate bytes this operand consumes
    pub fn imm_bytes(self) -> (r: usize)
        ensures
            r == self.spec_imm_bytes(),
    {
        match self {
            Dst8::HighMemImm => 1,
            Dst8::MemImm => 2,
            Dst8::Reg(_) | Dst8::Indirect(_) | Dst8::HighMemC => 0,
        }
    }
}

impl Src16 {
    /// Number of immediate bytes this operand consumes (spec form).
    pub open spec fn spec_imm_bytes(self) -> nat {
        match self {
            Src16::Imm => 2,
            Src16::Reg(_) => 0,
        }
    }

    /// Number of immediate bytes this operand consumes
    pub fn imm_bytes(self) -> (r: usize)
        ensures
            r == self.spec_imm_bytes(),
    {
        match self {
            Src16::Imm => 2,
            Src16::Reg(_) => 0,
        }
    }
}

impl Dst16 {
    /// Number of immediate bytes this operand consumes (spec form).
    pub open spec fn spec_imm_bytes(self) -> nat {
        match self {
            Dst16::MemImm => 2,
            Dst16::Reg(_) => 0,
        }
    }

    /// Number of immediate bytes this operand consumes
    pub fn imm_bytes(self) -> (r: usize)
        ensures
            r == self.spec_imm_bytes(),
    {
        match self {
            Dst16::MemImm => 2,
            Dst16::Reg(_) => 0,
        }
    }
}

// ============================================================================
// Reading and writing operands
// ============================================================================

impl Src8 {
    /// Reading this source: new CPU, new bus, byte read.
    pub open spec fn read_spec(self, c: CPU, b: BusView) -> (CPU, BusView, u8) {
        match self {
            Src8::Reg(r) => (c, b, c.registers.r8(r)),
            Src8::Indirect(r) => {
                let (b1, v) = b.read_cycle(c.registers.r16(r));
                (c, b1, v)
            },
            Src8::Imm => c.next_u8_spec(b),
            Src8::HighMemC => {
                let (b1, v) = b.read_cycle((0xFF00 + c.registers.c) as u16);
                (c, b1, v)
            },
            Src8::HighMemImm => {
                let (c1, b1, offset) = c.next_u8_spec(b);
                let (b2, v) = b1.read_cycle((0xFF00 + offset) as u16);
                (c1, b2, v)
            },
            Src8::MemImm => {
                let (c1, b1, address) = c.next_u16_spec(b);
                let (b2, v) = b1.read_cycle(address);
                (c1, b2, v)
            },
        }
    }

    /// Read an 8-bit value from this operand source
    pub fn read(self, cpu: &mut CPU, bus: &mut Bus) -> (v: u8)
        requires
            old(bus).wf(),
            old(bus)@.room(3),
        ensures
            final(bus).wf(),
            (*final(cpu), final(bus)@, v) == self.read_spec(*old(cpu), old(bus)@),
            advanced(old(bus)@, final(bus)@, 3),
    {
        match self {
            Src8::Reg(r) => cpu.registers.get_r8(r),
            Src8::Indirect(r) => {
                let address = cpu.registers.get_r16(r);
                bus.read_cycle(address)
            },
            Src8::Imm => cpu.next_u8(bus),
            Src8::HighMemC => {
                let address = 0xFF00 + (cpu.registers.c as u16);
                bus.read_cycle(address)
            },
            Src8::HighMemImm => {
                let offset = cpu.next_u8(bus);
                bus.read_cycle(0xFF00 + (offset as u16))
            },
            Src8::MemImm => {
                let address = cpu.next_u16(bus);
                bus.read_cycle(address)
            },
        }
    }
}

impl Src16 {
    /// Reading this source: new CPU, new bus, word read.
    pub open spec fn read_spec(self, c: CPU, b: BusView) -> (CPU, BusView, u16) {
        match self {
            Src16::Reg(r) => (c, b, c.registers.r16(r)),
            Src16::Imm => c.next_u16_spec(b),
        }
    }

    /// Read a 16-bit value from this operand source
    pub fn read(self, cpu: &mut CPU, bus: &mut Bus) -> (v: u16)
        requires
            old(bus).wf(),
            old(bus)@.room(2),
        ensures
            final(bus).wf(),
            (*final(cpu), final(bus)@, v) == self.read_spec(*old(cpu), old(bus)@),
            advanced(old(bus)@, final(bus)@, 2),
    {
        match self {
            Src16::Reg(r) => cpu.registers.get_r16(r),
            Src16::Imm => cpu.next_u16(bus),
        }
    }
}

impl Dst8 {
    /// Writing `v` to this destination: new CPU and new bus.
    pub open spec fn write_spec(self, c: CPU, b: BusView, v: u8) -> (CPU, BusView) {
        match self {
            Dst8::Reg(r) => (c.with_regs(c.registers.with_r8(r, v)), b),
            Dst8::Indirect(r) => (c, b.write_cycle(c.registers.r16(r), v)),
            Dst8::HighMemC => (c, b.write_cycle((0xFF00 + c.registers.c) as u16, v)),
            Dst8::HighMemImm => {
                let (c1, b1, offset) = c.next_u8_spec(b);
                (c1, b1.write_cycle((0xFF00 + offset) as u16, v))
            },
            Dst8::MemImm => {
                let (c1, b1, address) = c.next_u16_spec(b);
                (c1, b1.write_cycle(address, v))
            },
        }
    }

    /// The write of `v` to this destination is one the bus can take.
    pub open spec fn write_ok(self, c: CPU, b: BusView, v: u8) -> bool {
        match self {
            Dst8::Reg(r) => true,
            Dst8::Indirect(r) => b.write_cycle_ok(c.registers.r16(r), v),
            Dst8::HighMemC => b.write_cycle_ok((0xFF00 + c.registers.c) as u16, v),
            Dst8::HighMemImm => {
                let (c1, b1, offset) = c.next_u8_spec(b);
                b1.write_cycle_ok((0xFF00 + offset) as u16, v)
            },
            Dst8::MemImm => {
                let (c1, b1, address) = c.next_u16_spec(b);
                b1.write_cycle_ok(address, v)
            },
        }
    }

    /// Write an 8-bit value to this operand destination
    pub fn write(self, cpu: &mut CPU, bus: &mut Bus, value: u8)
        requires
            old(bus).wf(),
            old(bus)@.room(163),
            self.write_ok(*old(cpu), old(bus)@, value),
        ensures
            final(bus).wf(),
            (*final(cpu), final(bus)@) == self.write_spec(*old(cpu), old(bus)@, value),
            advanced(old(bus)@, final(bus)@, 163),
    {
        match self {
            Dst8::Reg(r) => cpu.registers.set_r8(r, value),
            Dst8::Indirect(r) => {
                let address = cpu.registers.get_r16(r);
                bus.write_cycle(address, value);
            },
            Dst8::HighMemC => {
                let address = 0xFF00 + (cpu.registers.c as u16);
                bus.write_cycle(address, value);
            },
            Dst8::HighMemImm => {
                let offset = cpu.next_u8(bus);
                bus.write_cycle(0xFF00 + (offset as u16), value);
            },
            Dst8::MemImm => {
                let address = cpu.next_u16(bus);
                bus.write_cycle(address, value);
            },
        }
    }
}

impl Dst16 {
    /// Writing `v` to this destination: new CPU and new bus (low byte first in memory).
    pub open spec fn write_spec(self, c: CPU, b: BusView, v: u16) -> (CPU, BusView) {
        match self {
            Dst16::Reg(r) => (c.with_regs(c.registers.with_r16(r, v)), b),
            Dst16::MemImm => {
                let (c1, b1, address) = c.next_u16_spec(b);
                let b2 = b1.write_cycle(address, crate::registers::lo_byte(v));
                (c1, b2.write_cycle(wrap16(address + 1), crate::registers::hi_byte(v)))
            },
        }
    }

    /// The writes of `v` to this destination are ones the bus can take.
    pub open spec fn write_ok(self, c: CPU, b: BusView, v: u16) -> bool {
        match self {
            Dst16::Reg(r) => true,
            Dst16::MemImm => {
                let (c1, b1, address) = c.next_u16_spec(b);
                let b2 = b1.write_cycle(address, crate::registers::lo_byte(v));
                b1.write_cycle_ok(address, crate::registers::lo_byte(v)) && b2.write_cycle_ok(
                    wrap16(address + 1),
                    crate::registers::hi_byte(v),
                )
            },
        }
    }

    /// Write a 16-bit value to this operand destination
    pub fn write(self, cpu: &mut CPU, bus: &mut Bus, value: u16)
        requires
            old(bus).wf(),
            old(bus)@.room(324),
            self.write_ok(*old(cpu), old(bus)@, value),
        ensures
            final(bus).wf(),
            (*final(cpu), final(bus)@) == self.write_spec(*old(cpu), old(bus)@, value),
            advanced(old(bus)@, final(bus)@, 324),
    {
        match self {
            Dst16::Reg(r) => cpu.registers.set_r16(r, value),
            Dst16::MemImm => {
                let address = cpu.next_u16(bus);
                let (hi, lo) = crate::registers::split_word(value);
                bus.write_cycle(address, lo);
                bus.write_cycle(address.wrapping_add(1), hi);
            },
        }
    }
}

impl RmwOperand8 {
    /// Reading this operand: new bus and byte (the CPU does not change).
    pub open spec fn read_spec(self, c: CPU, b: BusView) -> (BusView, u8) {
        match self {
            RmwOperand8::Reg(r) => (b, c.registers.r8(r)),
            RmwOperand8::Indirect(r) => b.read_cycle(c.registers.r16(r)),
        }
    }

    /// Writing `v` to this operand: new CPU and new bus.
    pub open spec fn write_spec(self, c: CPU, b: BusView, v: u8) -> (CPU, BusView) {
        match self {
            RmwOperand8::Reg(r) => (c.with_regs(c.registers.with_r8(r, v)), b),
            RmwOperand8::Indirect(r) => (c, b.write_cycle(c.registers.r16(r), v)),
        }
    }

    /// The write of `v` to this operand is one the bus can take.
    pub open spec fn write_ok(self, c: CPU, b: BusView, v: u8) -> bool {
        match self {
            RmwOperand8::Reg(r) => true,
            RmwOperand8::Indirect(r) => b.write_cycle_ok(c.registers.r16(r), v),
        }
    }

    pub fn read(self, cpu: &mut CPU, bus: &mut Bus) -> (v: u8)
        requires
            old(bus).wf(),
            old(bus)@.room(1),
        ensures
            final(bus).wf(),
            *final(cpu) == *old(cpu),
            (final(bus)@, v) == self.read_spec(*old(cpu), old(bus)@),
            advanced(old(bus)@, final(bus)@, 1),
    {
        match self {
            RmwOperand8::Reg(r) => cpu.registers.get_r8(r),
            RmwOperand8::Indirect(r) => {
                let address = cpu.registers.get_r16(r);
                bus.read_cycle(address)
            },
        }
    }

    pub fn write(self, cpu: &mut CPU, bus: &mut Bus, value: u8)
        requires
            old(bus).wf(),
            old(bus)@.room(161),
            self.write_ok(*old(cpu), old(bus)@, value),
        ensures
            final(bus).wf(),
            (*final(cpu), final(bus)@) == self.write_spec(*old(cpu), old(bus)@, value),
            advanced(old(bus)@, final(bus)@, 161),
    {
        match self {
            RmwOperand8::Reg(r) => cpu.registers.set_r8(r, value),
            RmwOperand8::Indirect(r) => {
                let address = cpu.registers.get_r16(r);
                bus.write_cycle(address, value);
            },
        }
    }
}

/// Reading a source consumes its immediate bytes: PC moves past them, one
/// M-cycle each, plus one M-cycle for a memory access; nothing but PC
/// changes in the CPU.
pub proof fn law_src8_read(src: Src8, c: CPU, b: BusView)
    requires
        b.inv(),
        b.room(3),
    ensures
        ({
            let (c1, b1, v) = src.read_spec(c, b);
            let n = src.spec_imm_bytes();
            &&& c1 == c.with_pc(wrap16(c.registers.pc + n))
            &&& b1.mclock == b.mclock + n + if src is Reg || src is Imm {
                0int
            } else {
                1int
            }
        }),
{
    let pc = c.registers.pc;
    lemma_cycle(b);
    let b0 = b.cycle();
    lemma_cycle(b0);
    let b1 = b0.cycle();
    lemma_cycle(b1);
    assert(wrap16(wrap16(pc + 1) + 1) == wrap16(pc + 2));
    assert(c.with_pc(pc) == c);
}

// ============================================================================
// Assembly text of operands
// ============================================================================

/// `"[" + inner + "]"`: a memory operand.
fn bracketed(inner: String) -> (r: String)
    ensures
        r@ == "["@ + inner@ + "]"@,
{
    let mut s = String::from_str("[");
    s.append(inner.as_str());
    s.append("]");
    s
}

impl Reg8 {
    /// The register's name.
    pub open spec fn text(self) -> Seq<char> {
        match self {
            Reg8::A => "A"@,
            Reg8::B => "B"@,
            Reg8::C => "C"@,
            Reg8::D => "D"@,
            Reg8::E => "E"@,
            Reg8::H => "H"@,
            Reg8::L => "L"@,
            Reg8::F => "F"@,
        }
    }

    /// The register's name.
    pub fn to_string(&self) -> (r: String)
        ensures
            r@ == self.text(),
    {
        match self {
            Reg8::A => String::from_str("A"),
            Reg8::B => String::from_str("B"),
            Reg8::C => String::from_str("C"),
            Reg8::D => String::from_str("D"),
            Reg8::E => String::from_str("E"),
            Reg8::H => String::from_str("H"),
            Reg8::L => String::from_str("L"),
            Reg8::F => String::from_str("F"),
        }
    }
}

impl Reg16 {
    /// The register pair's name.
    pub open spec fn text(self) -> Seq<char> {
        match self {
            Reg16::BC => "BC"@,
            Reg16::DE => "DE"@,
            Reg16::HL => "HL"@,
            Reg16::SP => "SP"@,
            Reg16::AF => "AF"@,
        }
    }

    /// The register pair's name.
    pub fn to_string(&self) -> (r: String)
        ensures
            r@ == self.text(),
    {
        match self {
            Reg16::BC => String::from_str("BC"),
            Reg16::DE => String::from_str("DE"),
            Reg16::HL => String::from_str("HL"),
            Reg16::SP => String::from_str("SP"),
            Reg16::AF => String::from_str("AF"),
        }
    }
}

impl Src8 {
    /// The operand as written in assembly.
    pub open spec fn text(self) -> Seq<char> {
        match self {
            Src8::Reg(r) => r.text(),
            Src8::Indirect(r) => "["@ + r.text() + "]"@,
            Src8::Imm => "n"@,
            Src8::HighMemC => "[FF00+C]"@,
            Src8::HighMemImm => "[FF00+n]"@,
            Src8::MemImm => "[nn]"@,
        }
    }

    /// The operand as written in assembly.
    pub fn to_string(&self) -> (r: String)
        ensures
            r@ == self.text(),
    {
        match self {
            Src8::Reg(r) => r.to_string(),
            Src8::Indirect(r) => bracketed(r.to_string()),
            Src8::Imm => String::from_str("n"),
            Src8::HighMemC => String::from_str("[FF00+C]"),
            Src8::HighMemImm => String::from_str("[FF00+n]"),
            Src8::MemImm => String::from_str("[nn]"),
        }
    }
}

impl Dst8 {
    /// The operand as written in assembly.
    pub open spec fn text(self) -> Seq<char> {
        match self {
            Dst8::Reg(r) => r.text(),
            Dst8::Indirect(r) => "["@ + r.text() + "]"@,
            Dst8::HighMemC => "[FF00+C]"@,
            Dst8::HighMemImm => "[FF00+n]"@,
            Dst8::MemImm => "[nn]"@,
        }
    }

    /// The operand as written in assembly.
    pub fn to_string(&self) -> (r: String)
        ensures
            r@ == self.text(),
    {
        match self {
            Dst8::Reg(r) => r.to_string(),
            Dst8::Indirect(r) => bracketed(r.to_string()),
            Dst8::HighMemC => String::from_str("[FF00+C]"),
            Dst8::HighMemImm => String::from_str("[FF00+n]"),
            Dst8::MemImm => String::from_str("[nn]"),
        }
    }
}

impl Src16 {
    /// The operand as written in assembly.
    pub open spec fn text(self) -> Seq<char> {
        match self {
            Src16::Reg(r) => r.text(),
            Src16::Imm => "nn"@,
        }
    }

    /// The operand as written in assembly.
    pub fn to_string(&self) -> (r: String)
        ensures
            r@ == self.text(),
    {
        match self {
            Src16::Reg(r) => r.to_string(),
            Src16::Imm => String::from_str("nn"),
        }
    }
}

impl Dst16 {
    /// The operand as written in assembly.
    pub open spec fn text(self) -> Seq<char> {
        match self {
            Dst16::Reg(r) => r.text(),
            Dst16::MemImm => "[nn]"@,
        }
    }

    /// The operand as written in assembly.
    pub fn to_string(&self) -> (r: String)
        ensures
            r@ == self.text(),
    {
        match self {
            Dst16::Reg(r) => r.to_string(),
            Dst16::MemImm => String::from_str("[nn]"),
        }
    }
}

impl RmwOperand8 {
    /// The operand as written in assembly.
    pub open spec fn text(self) -> Seq<char> {
        match self {
            RmwOperand8::Reg(r) => r.text(),
            RmwOperand8::Indirect(r) => "["@ + r.text() + "]"@,
        }
    }

    /// The operand as written in assembly.
    pub fn to_string(&self) -> (r: String)
        ensures
            r@ == self.text(),
    {
        match self {
            RmwOperand8::Reg(r) => r.to_string(),
            RmwOperand8::Indirect(r) => bracketed(r.to_string()),
        }
    }
}

} // verus!
