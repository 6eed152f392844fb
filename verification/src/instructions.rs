//! Game Boy CPU instructions with typed operands: the opcode table,
//! instruction lengths and execution.

pub mod alu;
pub mod cb;
pub mod jp;
pub mod ld;
pub mod misc;

use crate::bus::{Bus, BusView};
use crate::cpu::{advanced, CPU};
use crate::operand::{Dst16, Dst8, Reg16, Reg8, RmwOperand8, Src16, Src8};
use crate::registers::wrap16;
use crate::text::{append_hex, hex_text};
use vstd::prelude::*;

verus! {

/// Branch conditions.
#[derive(Debug, PartialEq, Eq, Copy, Clone, Hash, Structural)]
pub enum Flag {
    FlagNZ,
    FlagZ,
    FlagC,
    FlagNC,
}

#[derive(Debug, PartialEq, Eq, Copy, Clone, Structural)]
pub enum Direction {
    LEFT,
    RIGHT,
}

/// Registers by name, the byte registers and the word registers together.
#[derive(Debug, PartialEq, Eq, Copy, Clone, Hash, Structural)]
pub enum Register {
    A,
    B,
    C,
    D,
    E,
    F,  //FLAGS
    H,
    L,
    SP,
    PC,
    BC,
    DE,
    HL,
    AF,
}

impl Register {
    /// HL, BC, DE and SP: the word registers an address can come from.
    pub fn is_word_register(self) -> (r: bool)
        ensures
            r == (self is HL || self is BC || self is DE || self is SP),
    {
        matches!(self, Register::HL | Register::BC | Register::DE | Register::SP)
    }
}

/// Game Boy CPU instructions with typed operands
#[derive(Debug, Copy, Clone, PartialEq, Eq, Default, Hash, Structural)]
pub enum Instr {
    #[default]
    Nop,
    // 8-bit loads
    Ld8(Dst8, Src8),
    LdInc(Dst8, Src8),  // LD with HL++
    LdDec(Dst8, Src8),  // LD with HL--
    // 16-bit loads
    Ld16(Dst16, Src16),
    LdSpHl,  // LD SP, HL
    LdHlSpOffset,  // LD HL, SP+e (signed offset)
    // 8-bit ALU (operate on A register)
    Add(Src8),
    Adc(Src8),
    Sub(Src8),
    Sbc(Src8),
    And(Src8),
    Xor(Src8),
    Or(Src8),
    Cp(Src8),
    // 8-bit INC/DEC
    Inc8(RmwOperand8),
    Dec8(RmwOperand8),
    // 16-bit INC/DEC
    Inc16(Reg16),
    Dec16(Reg16),
    // 16-bit ADD HL
    AddHl(Reg16),
    // ADD SP, e (signed offset)
    AddSp,
    // Rotates on A (no zero flag set)
    Rlca,
    Rrca,
    Rla,
    Rra,
    // Misc ALU
    Daa,
    Cpl,  // Complement A (NOT A)
    Scf,  // Set carry flag
    Ccf,  // Complement carry flag
    // CB prefix (bit operations)
    Cb,
    // Jumps
    Jr(Option<Flag>),
    Jp(Option<Flag>),
    JpHl,
    // Calls and returns
    Call(Option<Flag>),
    Ret(Option<Flag>),
    Reti,
    Rst(u8),
    // Stack ops
    Push(Reg16),
    Pop(Reg16),
    // Interrupts
    Di,
    Ei,
    // Control
    Halt,
    Stop,
    // Invalid/unimplemented opcode
    Invalid,
}

/// The instruction each opcode byte stands for.
pub open spec fn instr_table(opcode: u8) -> Instr {
    match opcode {
        0x00 => Instr::Nop,  // 0x00
        0x01 => Instr::Ld16(Dst16::Reg(Reg16::BC), Src16::Imm),  // 0x01 LD BC, nn
        0x02 => Instr::Ld8(Dst8::Indirect(Reg16::BC), Src8::Reg(Reg8::A)),  // 0x02 LD [BC], A
        0x03 => Instr::Inc16(Reg16::BC),  // 0x03 INC BC
        0x04 => Instr::Inc8(RmwOperand8::Reg(Reg8::B)),  // 0x04 INC B
        0x05 => Instr::Dec8(RmwOperand8::Reg(Reg8::B)),  // 0x05 DEC B
        0x06 => Instr::Ld8(Dst8::Reg(Reg8::B), Src8::Imm),  // 0x06 LD B, n
        0x07 => Instr::Rlca,  // 0x07 RLCA
        0x08 => Instr::Ld16(Dst16::MemImm, Src16::Reg(Reg16::SP)),  // 0x08 LD [nn], SP
        0x09 => Instr::AddHl(Reg16::BC),  // 0x09 ADD HL, BC
        0x0A => Instr::Ld8(Dst8::Reg(Reg8::A), Src8::Indirect(Reg16::BC)),  // 0x0A LD A, [BC]
        0x0B => Instr::Dec16(Reg16::BC),  // 0x0B DEC BC
        0x0C => Instr::Inc8(RmwOperand8::Reg(Reg8::C)),  // 0x0C INC C
        0x0D => Instr::Dec8(RmwOperand8::Reg(Reg8::C)),  // 0x0D DEC C
        0x0E => Instr::Ld8(Dst8::Reg(Reg8::C), Src8::Imm),  // 0x0E LD C, n
        0x0F => Instr::Rrca,  // 0x0F RRCA
        0x10 => Instr::Stop,  // 0x10 STOP
        0x11 => Instr::Ld16(Dst16::Reg(Reg16::DE), Src16::Imm),  // 0x11 LD DE, nn
        0x12 => Instr::Ld8(Dst8::Indirect(Reg16::DE), Src8::Reg(Reg8::A)),  // 0x12 LD [DE], A
        0x13 => Instr::Inc16(Reg16::DE),  // 0x13 INC DE
        0x14 => Instr::Inc8(RmwOperand8::Reg(Reg8::D)),  // 0x14 INC D
        0x15 => Instr::Dec8(RmwOperand8::Reg(Reg8::D)),  // 0x15 DEC D
        0x16 => Instr::Ld8(Dst8::Reg(Reg8::D), Src8::Imm),  // 0x16 LD D, n
        0x17 => Instr::Rla,  // 0x17 RLA
        0x18 => Instr::Jr(None),  // 0x18 JR e
        0x19 => Instr::AddHl(Reg16::DE),  // 0x19 ADD HL, DE
        0x1A => Instr::Ld8(Dst8::Reg(Reg8::A), Src8::Indirect(Reg16::DE)),  // 0x1A LD A, [DE]
        0x1B => Instr::Dec16(Reg16::DE),  // 0x1B DEC DE
        0x1C => Instr::Inc8(RmwOperand8::Reg(Reg8::E)),  // 0x1C INC E
        0x1D => Instr::Dec8(RmwOperand8::Reg(Reg8::E)),  // 0x1D DEC E
        0x1E => Instr::Ld8(Dst8::Reg(Reg8::E), Src8::Imm),  // 0x1E LD E, n
        0x1F => Instr::Rra,  // 0x1F RRA
        0x20 => Instr::Jr(Some(Flag::FlagNZ)),  // 0x20 JR NZ, e
        0x21 => Instr::Ld16(Dst16::Reg(Reg16::HL), Src16::Imm),  // 0x21 LD HL, nn
        0x22 => Instr::LdInc(Dst8::Indirect(Reg16::HL), Src8::Reg(Reg8::A)),  // 0x22 LD [HL+], A
        0x23 => Instr::Inc16(Reg16::HL),  // 0x23 INC HL
        0x24 => Instr::Inc8(RmwOperand8::Reg(Reg8::H)),  // 0x24 INC H
        0x25 => Instr::Dec8(RmwOperand8::Reg(Reg8::H)),  // 0x25 DEC H
        0x26 => Instr::Ld8(Dst8::Reg(Reg8::H), Src8::Imm),  // 0x26 LD H, n
        0x27 => Instr::Daa,  // 0x27 DAA
        0x28 => Instr::Jr(Some(Flag::FlagZ)),  // 0x28 JR Z, e
        0x29 => Instr::AddHl(Reg16::HL),  // 0x29 ADD HL, HL
        0x2A => Instr::LdInc(Dst8::Reg(Reg8::A), Src8::Indirect(Reg16::HL)),  // 0x2A LD A, [HL+]
        0x2B => Instr::Dec16(Reg16::HL),  // 0x2B DEC HL
        0x2C => Instr::Inc8(RmwOperand8::Reg(Reg8::L)),  // 0x2C INC L
        0x2D => Instr::Dec8(RmwOperand8::Reg(Reg8::L)),  // 0x2D DEC L
        0x2E => Instr::Ld8(Dst8::Reg(Reg8::L), Src8::Imm),  // 0x2E LD L, n
        0x2F => Instr::Cpl,  // 0x2F CPL
        0x30 => Instr::Jr(Some(Flag::FlagNC)),  // 0x30 JR NC, e
        0x31 => Instr::Ld16(Dst16::Reg(Reg16::SP), Src16::Imm),  // 0x31 LD SP, nn
        0x32 => Instr::LdDec(Dst8::Indirect(Reg16::HL), Src8::Reg(Reg8::A)),  // 0x32 LD [HL-], A
        0x33 => Instr::Inc16(Reg16::SP),  // 0x33 INC SP
        0x34 => Instr::Inc8(RmwOperand8::Indirect(Reg16::HL)),  // 0x34 INC [HL]
        0x35 => Instr::Dec8(RmwOperand8::Indirect(Reg16::HL)),  // 0x35 DEC [HL]
        0x36 => Instr::Ld8(Dst8::Indirect(Reg16::HL), Src8::Imm),  // 0x36 LD [HL], n
        0x37 => Instr::Scf,  // 0x37 SCF
        0x38 => Instr::Jr(Some(Flag::FlagC)),  // 0x38 JR C, e
        0x39 => Instr::AddHl(Reg16::SP),  // 0x39 ADD HL, SP
        0x3A => Instr::LdDec(Dst8::Reg(Reg8::A), Src8::Indirect(Reg16::HL)),  // 0x3A LD A, [HL-]
        0x3B => Instr::Dec16(Reg16::SP),  // 0x3B DEC SP
        0x3C => Instr::Inc8(RmwOperand8::Reg(Reg8::A)),  // 0x3C INC A
        0x3D => Instr::Dec8(RmwOperand8::Reg(Reg8::A)),  // 0x3D DEC A
        0x3E => Instr::Ld8(Dst8::Reg(Reg8::A), Src8::Imm),  // 0x3E LD A, n
        0x3F => Instr::Ccf,  // 0x3F CCF
        0x40 => Instr::Ld8(Dst8::Reg(Reg8::B), Src8::Reg(Reg8::B)),  // 0x40 LD B, B
        0x41 => Instr::Ld8(Dst8::Reg(Reg8::B), Src8::Reg(Reg8::C)),  // 0x41 LD B, C
        0x42 => Instr::Ld8(Dst8::Reg(Reg8::B), Src8::Reg(Reg8::D)),  // 0x42 LD B, D
        0x43 => Instr::Ld8(Dst8::Reg(Reg8::B), Src8::Reg(Reg8::E)),  // 0x43 LD B, E
        0x44 => Instr::Ld8(Dst8::Reg(Reg8::B), Src8::Reg(Reg8::H)),  // 0x44 LD B, H
        0x45 => Instr::Ld8(Dst8::Reg(Reg8::B), Src8::Reg(Reg8::L)),  // 0x45 LD B, L
        0x46 => Instr::Ld8(Dst8::Reg(Reg8::B), Src8::Indirect(Reg16::HL)),  // 0x46 LD B, [HL]
        0x47 => Instr::Ld8(Dst8::Reg(Reg8::B), Src8::Reg(Reg8::A)),  // 0x47 LD B, A
        0x48 => Instr::Ld8(Dst8::Reg(Reg8::C), Src8::Reg(Reg8::B)),  // 0x48 LD C, B
        0x49 => Instr::Ld8(Dst8::Reg(Reg8::C), Src8::Reg(Reg8::C)),  // 0x49 LD C, C
        0x4A => Instr::Ld8(Dst8::Reg(Reg8::C), Src8::Reg(Reg8::D)),  // 0x4A LD C, D
        0x4B => Instr::Ld8(Dst8::Reg(Reg8::C), Src8::Reg(Reg8::E)),  // 0x4B LD C, E
        0x4C => Instr::Ld8(Dst8::Reg(Reg8::C), Src8::Reg(Reg8::H)),  // 0x4C LD C, H
        0x4D => Instr::Ld8(Dst8::Reg(Reg8::C), Src8::Reg(Reg8::L)),  // 0x4D LD C, L
        0x4E => Instr::Ld8(Dst8::Reg(Reg8::C), Src8::Indirect(Reg16::HL)),  // 0x4E LD C, [HL]
        0x4F => Instr::Ld8(Dst8::Reg(Reg8::C), Src8::Reg(Reg8::A)),  // 0x4F LD C, A
        0x50 => Instr::Ld8(Dst8::Reg(Reg8::D), Src8::Reg(Reg8::B)),  // 0x50 LD D, B
        0x51 => Instr::Ld8(Dst8::Reg(Reg8::D), Src8::Reg(Reg8::C)),  // 0x51 LD D, C
        0x52 => Instr::Ld8(Dst8::Reg(Reg8::D), Src8::Reg(Reg8::D)),  // 0x52 LD D, D
        0x53 => Instr::Ld8(Dst8::Reg(Reg8::D), Src8::Reg(Reg8::E)),  // 0x53 LD D, E
        0x54 => Instr::Ld8(Dst8::Reg(Reg8::D), Src8::Reg(Reg8::H)),  // 0x54 LD D, H
        0x55 => Instr::Ld8(Dst8::Reg(Reg8::D), Src8::Reg(Reg8::L)),  // 0x55 LD D, L
        0x56 => Instr::Ld8(Dst8::Reg(Reg8::D), Src8::Indirect(Reg16::HL)),  // 0x56 LD D, [HL]
        0x57 => Instr::Ld8(Dst8::Reg(Reg8::D), Src8::Reg(Reg8::A)),  // 0x57 LD D, A
        0x58 => Instr::Ld8(Dst8::Reg(Reg8::E), Src8::Reg(Reg8::B)),  // 0x58 LD E, B
        0x59 => Instr::Ld8(Dst8::Reg(Reg8::E), Src8::Reg(Reg8::C)),  // 0x59 LD E, C
        0x5A => Instr::Ld8(Dst8::Reg(Reg8::E), Src8::Reg(Reg8::D)),  // 0x5A LD E, D
        0x5B => Instr::Ld8(Dst8::Reg(Reg8::E), Src8::Reg(Reg8::E)),  // 0x5B LD E, E
        0x5C => Instr::Ld8(Dst8::Reg(Reg8::E), Src8::Reg(Reg8::H)),  // 0x5C LD E, H
        0x5D => Instr::Ld8(Dst8::Reg(Reg8::E), Src8::Reg(Reg8::L)),  // 0x5D LD E, L
        0x5E => Instr::Ld8(Dst8::Reg(Reg8::E), Src8::Indirect(Reg16::HL)),  // 0x5E LD E, [HL]
        0x5F => Instr::Ld8(Dst8::Reg(Reg8::E), Src8::Reg(Reg8::A)),  // 0x5F LD E, A
        0x60 => Instr::Ld8(Dst8::Reg(Reg8::H), Src8::Reg(Reg8::B)),  // 0x60 LD H, B
        0x61 => Instr::Ld8(Dst8::Reg(Reg8::H), Src8::Reg(Reg8::C)),  // 0x61 LD H, C
        0x62 => Instr::Ld8(Dst8::Reg(Reg8::H), Src8::Reg(Reg8::D)),  // 0x62 LD H, D
        0x63 => Instr::Ld8(Dst8::Reg(Reg8::H), Src8::Reg(Reg8::E)),  // 0x63 LD H, E
        0x64 => Instr::Ld8(Dst8::Reg(Reg8::H), Src8::Reg(Reg8::H)),  // 0x64 LD H, H
        0x65 => Instr::Ld8(Dst8::Reg(Reg8::H), Src8::Reg(Reg8::L)),  // 0x65 LD H, L
        0x66 => Instr::Ld8(Dst8::Reg(Reg8::H), Src8::Indirect(Reg16::HL)),  // 0x66 LD H, [HL]
        0x67 => Instr::Ld8(Dst8::Reg(Reg8::H), Src8::Reg(Reg8::A)),  // 0x67 LD H, A
        0x68 => Instr::Ld8(Dst8::Reg(Reg8::L), Src8::Reg(Reg8::B)),  // 0x68 LD L, B
        0x69 => Instr::Ld8(Dst8::Reg(Reg8::L), Src8::Reg(Reg8::C)),  // 0x69 LD L, C
        0x6A => Instr::Ld8(Dst8::Reg(Reg8::L), Src8::Reg(Reg8::D)),  // 0x6A LD L, D
        0x6B => Instr::Ld8(Dst8::Reg(Reg8::L), Src8::Reg(Reg8::E)),  // 0x6B LD L, E
        0x6C => Instr::Ld8(Dst8::Reg(Reg8::L), Src8::Reg(Reg8::H)),  // 0x6C LD L, H
        0x6D => Instr::Ld8(Dst8::Reg(Reg8::L), Src8::Reg(Reg8::L)),  // 0x6D LD L, L
        0x6E => Instr::Ld8(Dst8::Reg(Reg8::L), Src8::Indirect(Reg16::HL)),  // 0x6E LD L, [HL]
        0x6F => Instr::Ld8(Dst8::Reg(Reg8::L), Src8::Reg(Reg8::A)),  // 0x6F LD L, A
        0x70 => Instr::Ld8(Dst8::Indirect(Reg16::HL), Src8::Reg(Reg8::B)),  // 0x70 LD [HL], B
        0x71 => Instr::Ld8(Dst8::Indirect(Reg16::HL), Src8::Reg(Reg8::C)),  // 0x71 LD [HL], C
        0x72 => Instr::Ld8(Dst8::Indirect(Reg16::HL), Src8::Reg(Reg8::D)),  // 0x72 LD [HL], D
        0x73 => Instr::Ld8(Dst8::Indirect(Reg16::HL), Src8::Reg(Reg8::E)),  // 0x73 LD [HL], E
        0x74 => Instr::Ld8(Dst8::Indirect(Reg16::HL), Src8::Reg(Reg8::H)),  // 0x74 LD [HL], H
        0x75 => Instr::Ld8(Dst8::Indirect(Reg16::HL), Src8::Reg(Reg8::L)),  // 0x75 LD [HL], L
        0x76 => Instr::Halt,  // 0x76 HALT
        0x77 => Instr::Ld8(Dst8::Indirect(Reg16::HL), Src8::Reg(Reg8::A)),  // 0x77 LD [HL], A
        0x78 => Instr::Ld8(Dst8::Reg(Reg8::A), Src8::Reg(Reg8::B)),  // 0x78 LD A, B
        0x79 => Instr::Ld8(Dst8::Reg(Reg8::A), Src8::Reg(Reg8::C)),  // 0x79 LD A, C
        0x7A => Instr::Ld8(Dst8::Reg(Reg8::A), Src8::Reg(Reg8::D)),  // 0x7A LD A, D
        0x7B => Instr::Ld8(Dst8::Reg(Reg8::A), Src8::Reg(Reg8::E)),  // 0x7B LD A, E
        0x7C => Instr::Ld8(Dst8::Reg(Reg8::A), Src8::Reg(Reg8::H)),  // 0x7C LD A, H
        0x7D => Instr::Ld8(Dst8::Reg(Reg8::A), Src8::Reg(Reg8::L)),  // 0x7D LD A, L
        0x7E => Instr::Ld8(Dst8::Reg(Reg8::A), Src8::Indirect(Reg16::HL)),  // 0x7E LD A, [HL]
        0x7F => Instr::Ld8(Dst8::Reg(Reg8::A), Src8::Reg(Reg8::A)),  // 0x7F LD A, A
        0x80 => Instr::Add(Src8::Reg(Reg8::B)),  // 0x80 ADD A, B
        0x81 => Instr::Add(Src8::Reg(Reg8::C)),  // 0x81 ADD A, C
        0x82 => Instr::Add(Src8::Reg(Reg8::D)),  // 0x82 ADD A, D
        0x83 => Instr::Add(Src8::Reg(Reg8::E)),  // 0x83 ADD A, E
        0x84 => Instr::Add(Src8::Reg(Reg8::H)),  // 0x84 ADD A, H
        0x85 => Instr::Add(Src8::Reg(Reg8::L)),  // 0x85 ADD A, L
        0x86 => Instr::Add(Src8::Indirect(Reg16::HL)),  // 0x86 ADD A, [HL]
        0x87 => Instr::Add(Src8::Reg(Reg8::A)),  // 0x87 ADD A, A
        0x88 => Instr::Adc(Src8::Reg(Reg8::B)),  // 0x88 ADC A, B
        0x89 => Instr::Adc(Src8::Reg(Reg8::C)),  // 0x89 ADC A, C
        0x8A => Instr::Adc(Src8::Reg(Reg8::D)),  // 0x8A ADC A, D
        0x8B => Instr::Adc(Src8::Reg(Reg8::E)),  // 0x8B ADC A, E
        0x8C => Instr::Adc(Src8::Reg(Reg8::H)),  // 0x8C ADC A, H
        0x8D => Instr::Adc(Src8::Reg(Reg8::L)),  // 0x8D ADC A, L
        0x8E => Instr::Adc(Src8::Indirect(Reg16::HL)),  // 0x8E ADC A, [HL]
        0x8F => Instr::Adc(Src8::Reg(Reg8::A)),  // 0x8F ADC A, A
        0x90 => Instr::Sub(Src8::Reg(Reg8::B)),  // 0x90 SUB A, B
        0x91 => Instr::Sub(Src8::Reg(Reg8::C)),  // 0x91 SUB A, C
        0x92 => Instr::Sub(Src8::Reg(Reg8::D)),  // 0x92 SUB A, D
        0x93 => Instr::Sub(Src8::Reg(Reg8::E)),  // 0x93 SUB A, E
        0x94 => Instr::Sub(Src8::Reg(Reg8::H)),  // 0x94 SUB A, H
        0x95 => Instr::Sub(Src8::Reg(Reg8::L)),  // 0x95 SUB A, L
        0x96 => Instr::Sub(Src8::Indirect(Reg16::HL)),  // 0x96 SUB A, [HL]
        0x97 => Instr::Sub(Src8::Reg(Reg8::A)),  // 0x97 SUB A, A
        0x98 => Instr::Sbc(Src8::Reg(Reg8::B)),  // 0x98 SBC A, B
        0x99 => Instr::Sbc(Src8::Reg(Reg8::C)),  // 0x99 SBC A, C
        0x9A => Instr::Sbc(Src8::Reg(Reg8::D)),  // 0x9A SBC A, D
        0x9B => Instr::Sbc(Src8::Reg(Reg8::E)),  // 0x9B SBC A, E
        0x9C => Instr::Sbc(Src8::Reg(Reg8::H)),  // 0x9C SBC A, H
        0x9D => Instr::Sbc(Src8::Reg(Reg8::L)),  // 0x9D SBC A, L
        0x9E => Instr::Sbc(Src8::Indirect(Reg16::HL)),  // 0x9E SBC A, [HL]
        0x9F => Instr::Sbc(Src8::Reg(Reg8::A)),  // 0x9F SBC A, A
        0xA0 => Instr::And(Src8::Reg(Reg8::B)),  // 0xA0 AND A, B
        0xA1 => Instr::And(Src8::Reg(Reg8::C)),  // 0xA1 AND A, C
        0xA2 => Instr::And(Src8::Reg(Reg8::D)),  // 0xA2 AND A, D
        0xA3 => Instr::And(Src8::Reg(Reg8::E)),  // 0xA3 AND A, E
        0xA4 => Instr::And(Src8::Reg(Reg8::H)),  // 0xA4 AND A, H
        0xA5 => Instr::And(Src8::Reg(Reg8::L)),  // 0xA5 AND A, L
        0xA6 => Instr::And(Src8::Indirect(Reg16::HL)),  // 0xA6 AND A, [HL]
        0xA7 => Instr::And(Src8::Reg(Reg8::A)),  // 0xA7 AND A, A
        0xA8 => Instr::Xor(Src8::Reg(Reg8::B)),  // 0xA8 XOR A, B
        0xA9 => Instr::Xor(Src8::Reg(Reg8::C)),  // 0xA9 XOR A, C
        0xAA => Instr::Xor(Src8::Reg(Reg8::D)),  // 0xAA XOR A, D
        0xAB => Instr::Xor(Src8::Reg(Reg8::E)),  // 0xAB XOR A, E
        0xAC => Instr::Xor(Src8::Reg(Reg8::H)),  // 0xAC XOR A, H
        0xAD => Instr::Xor(Src8::Reg(Reg8::L)),  // 0xAD XOR A, L
        0xAE => Instr::Xor(Src8::Indirect(Reg16::HL)),  // 0xAE XOR A, [HL]
        0xAF => Instr::Xor(Src8::Reg(Reg8::A)),  // 0xAF XOR A, A
        0xB0 => Instr::Or(Src8::Reg(Reg8::B)),  // 0xB0 OR A, B
        0xB1 => Instr::Or(Src8::Reg(Reg8::C)),  // 0xB1 OR A, C
        0xB2 => Instr::Or(Src8::Reg(Reg8::D)),  // 0xB2 OR A, D
        0xB3 => Instr::Or(Src8::Reg(Reg8::E)),  // 0xB3 OR A, E
        0xB4 => Instr::Or(Src8::Reg(Reg8::H)),  // 0xB4 OR A, H
        0xB5 => Instr::Or(Src8::Reg(Reg8::L)),  // 0xB5 OR A, L
        0xB6 => Instr::Or(Src8::Indirect(Reg16::HL)),  // 0xB6 OR A, [HL]
        0xB7 => Instr::Or(Src8::Reg(Reg8::A)),  // 0xB7 OR A, A
        0xB8 => Instr::Cp(Src8::Reg(Reg8::B)),  // 0xB8 CP A, B
        0xB9 => Instr::Cp(Src8::Reg(Reg8::C)),  // 0xB9 CP A, C
        0xBA => Instr::Cp(Src8::Reg(Reg8::D)),  // 0xBA CP A, D
        0xBB => Instr::Cp(Src8::Reg(Reg8::E)),  // 0xBB CP A, E
        0xBC => Instr::Cp(Src8::Reg(Reg8::H)),  // 0xBC CP A, H
        0xBD => Instr::Cp(Src8::Reg(Reg8::L)),  // 0xBD CP A, L
        0xBE => Instr::Cp(Src8::Indirect(Reg16::HL)),  // 0xBE CP A, [HL]
        0xBF => Instr::Cp(Src8::Reg(Reg8::A)),  // 0xBF CP A, A
        0xC0 => Instr::Ret(Some(Flag::FlagNZ)),  // 0xC0 RET NZ
        0xC1 => Instr::Pop(Reg16::BC),  // 0xC1 POP BC
        0xC2 => Instr::Jp(Some(Flag::FlagNZ)),  // 0xC2 JP NZ, nn
        0xC3 => Instr::Jp(None),  // 0xC3 JP nn
        0xC4 => Instr::Call(Some(Flag::FlagNZ)),  // 0xC4 CALL NZ, nn
        0xC5 => Instr::Push(Reg16::BC),  // 0xC5 PUSH BC
        0xC6 => Instr::Add(Src8::Imm),  // 0xC6 ADD A, n
        0xC7 => Instr::Rst(0x00),  // 0xC7 RST 00H
        0xC8 => Instr::Ret(Some(Flag::FlagZ)),  // 0xC8 RET Z
        0xC9 => Instr::Ret(None),  // 0xC9 RET
        0xCA => Instr::Jp(Some(Flag::FlagZ)),  // 0xCA JP Z, nn
        0xCB => Instr::Cb,  // 0xCB CB prefix
        0xCC => Instr::Call(Some(Flag::FlagZ)),  // 0xCC CALL Z, nn
        0xCD => Instr::Call(None),  // 0xCD CALL nn
        0xCE => Instr::Adc(Src8::Imm),  // 0xCE ADC A, n
        0xCF => Instr::Rst(0x08),  // 0xCF RST 08H
        0xD0 => Instr::Ret(Some(Flag::FlagNC)),  // 0xD0 RET NC
        0xD1 => Instr::Pop(Reg16::DE),  // 0xD1 POP DE
        0xD2 => Instr::Jp(Some(Flag::FlagNC)),  // 0xD2 JP NC, nn
        0xD3 => Instr::Invalid,  // 0xD3 (invalid)
        0xD4 => Instr::Call(Some(Flag::FlagNC)),  // 0xD4 CALL NC, nn
        0xD5 => Instr::Push(Reg16::DE),  // 0xD5 PUSH DE
        0xD6 => Instr::Sub(Src8::Imm),  // 0xD6 SUB A, n
        0xD7 => Instr::Rst(0x10),  // 0xD7 RST 10H
        0xD8 => Instr::Ret(Some(Flag::FlagC)),  // 0xD8 RET C
        0xD9 => Instr::Reti,  // 0xD9 RETI
        0xDA => Instr::Jp(Some(Flag::FlagC)),  // 0xDA JP C, nn
        0xDB => Instr::Invalid,  // 0xDB (invalid)
        0xDC => Instr::Call(Some(Flag::FlagC)),  // 0xDC CALL C, nn
        0xDD => Instr::Invalid,  // 0xDD (invalid)
        0xDE => Instr::Sbc(Src8::Imm),  // 0xDE SBC A, n
        0xDF => Instr::Rst(0x18),  // 0xDF RST 18H
        0xE0 => Instr::Ld8(Dst8::HighMemImm, Src8::Reg(Reg8::A)),  // 0xE0 LDH [n], A
        0xE1 => Instr::Pop(Reg16::HL),  // 0xE1 POP HL
        0xE2 => Instr::Ld8(Dst8::HighMemC, Src8::Reg(Reg8::A)),  // 0xE2 LD [C], A
        0xE3 => Instr::Invalid,  // 0xE3 (invalid)
        0xE4 => Instr::Invalid,  // 0xE4 (invalid)
        0xE5 => Instr::Push(Reg16::HL),  // 0xE5 PUSH HL
        0xE6 => Instr::And(Src8::Imm),  // 0xE6 AND A, n
        0xE7 => Instr::Rst(0x20),  // 0xE7 RST 20H
        0xE8 => Instr::AddSp,  // 0xE8 ADD SP, e
        0xE9 => Instr::JpHl,  // 0xE9 JP HL
        0xEA => Instr::Ld8(Dst8::MemImm, Src8::Reg(Reg8::A)),  // 0xEA LD [nn], A
        0xEB => Instr::Invalid,  // 0xEB (invalid)
        0xEC => Instr::Invalid,  // 0xEC (invalid)
        0xED => Instr::Invalid,  // 0xED (invalid)
        0xEE => Instr::Xor(Src8::Imm),  // 0xEE XOR A, n
        0xEF => Instr::Rst(0x28),  // 0xEF RST 28H
        0xF0 => Instr::Ld8(Dst8::Reg(Reg8::A), Src8::HighMemImm),  // 0xF0 LDH A, [n]
        0xF1 => Instr::Pop(Reg16::AF),  // 0xF1 POP AF
        0xF2 => Instr::Ld8(Dst8::Reg(Reg8::A), Src8::HighMemC),  // 0xF2 LD A, [C]
        0xF3 => Instr::Di,  // 0xF3 DI
        0xF4 => Instr::Invalid,  // 0xF4 (invalid)
        0xF5 => Instr::Push(Reg16::AF),  // 0xF5 PUSH AF
        0xF6 => Instr::Or(Src8::Imm),  // 0xF6 OR A, n
        0xF7 => Instr::Rst(0x30),  // 0xF7 RST 30H
        0xF8 => Instr::LdHlSpOffset,  // 0xF8 LD HL, SP+e
        0xF9 => Instr::LdSpHl,  // 0xF9 LD SP, HL
        0xFA => Instr::Ld8(Dst8::Reg(Reg8::A), Src8::MemImm),  // 0xFA LD A, [nn]
        0xFB => Instr::Ei,  // 0xFB EI
        0xFC => Instr::Invalid,  // 0xFC (invalid)
        0xFD => Instr::Invalid,  // 0xFD (invalid)
        0xFE => Instr::Cp(Src8::Imm),  // 0xFE CP A, n
        0xFF => Instr::Rst(0x38),  // 0xFF RST 38H
    }
}

/// The instruction for an opcode byte (the opcode table).
pub fn decode(opcode: u8) -> (r: Instr)
    ensures
        r == instr_table(opcode),
{
    match opcode {
        0x00 => Instr::Nop,  // 0x00
        0x01 => Instr::Ld16(Dst16::Reg(Reg16::BC), Src16::Imm),  // 0x01 LD BC, nn
        0x02 => Instr::Ld8(Dst8::Indirect(Reg16::BC), Src8::Reg(Reg8::A)),  // 0x02 LD [BC], A
        0x03 => Instr::Inc16(Reg16::BC),  // 0x03 INC BC
        0x04 => Instr::Inc8(RmwOperand8::Reg(Reg8::B)),  // 0x04 INC B
        0x05 => Instr::Dec8(RmwOperand8::Reg(Reg8::B)),  // 0x05 DEC B
        0x06 => Instr::Ld8(Dst8::Reg(Reg8::B), Src8::Imm),  // 0x06 LD B, n
        0x07 => Instr::Rlca,  // 0x07 RLCA
        0x08 => Instr::Ld16(Dst16::MemImm, Src16::Reg(Reg16::SP)),  // 0x08 LD [nn], SP
        0x09 => Instr::AddHl(Reg16::BC),  // 0x09 ADD HL, BC
        0x0A => Instr::Ld8(Dst8::Reg(Reg8::A), Src8::Indirect(Reg16::BC)),  // 0x0A LD A, [BC]
        0x0B => Instr::Dec16(Reg16::BC),  // 0x0B DEC BC
        0x0C => Instr::Inc8(RmwOperand8::Reg(Reg8::C)),  // 0x0C INC C
        0x0D => Instr::Dec8(RmwOperand8::Reg(Reg8::C)),  // 0x0D DEC C
        0x0E => Instr::Ld8(Dst8::Reg(Reg8::C), Src8::Imm),  // 0x0E LD C, n
        0x0F => Instr::Rrca,  // 0x0F RRCA
        0x10 => Instr::Stop,  // 0x10 STOP
        0x11 => Instr::Ld16(Dst16::Reg(Reg16::DE), Src16::Imm),  // 0x11 LD DE, nn
        0x12 => Instr::Ld8(Dst8::Indirect(Reg16::DE), Src8::Reg(Reg8::A)),  // 0x12 LD [DE], A
        0x13 => Instr::Inc16(Reg16::DE),  // 0x13 INC DE
        0x14 => Instr::Inc8(RmwOperand8::Reg(Reg8::D)),  // 0x14 INC D
        0x15 => Instr::Dec8(RmwOperand8::Reg(Reg8::D)),  // 0x15 DEC D
        0x16 => Instr::Ld8(Dst8::Reg(Reg8::D), Src8::Imm),  // 0x16 LD D, n
        0x17 => Instr::Rla,  // 0x17 RLA
        0x18 => Instr::Jr(None),  // 0x18 JR e
        0x19 => Instr::AddHl(Reg16::DE),  // 0x19 ADD HL, DE
        0x1A => Instr::Ld8(Dst8::Reg(Reg8::A), Src8::Indirect(Reg16::DE)),  // 0x1A LD A, [DE]
        0x1B => Instr::Dec16(Reg16::DE),  // 0x1B DEC DE
        0x1C => Instr::Inc8(RmwOperand8::Reg(Reg8::E)),  // 0x1C INC E
        0x1D => Instr::Dec8(RmwOperand8::Reg(Reg8::E)),  // 0x1D DEC E
        0x1E => Instr::Ld8(Dst8::Reg(Reg8::E), Src8::Imm),  // 0x1E LD E, n
        0x1F => Instr::Rra,  // 0x1F RRA
        0x20 => Instr::Jr(Some(Flag::FlagNZ)),  // 0x20 JR NZ, e
        0x21 => Instr::Ld16(Dst16::Reg(Reg16::HL), Src16::Imm),  // 0x21 LD HL, nn
        0x22 => Instr::LdInc(Dst8::Indirect(Reg16::HL), Src8::Reg(Reg8::A)),  // 0x22 LD [HL+], A
        0x23 => Instr::Inc16(Reg16::HL),  // 0x23 INC HL
        0x24 => Instr::Inc8(RmwOperand8::Reg(Reg8::H)),  // 0x24 INC H
        0x25 => Instr::Dec8(RmwOperand8::Reg(Reg8::H)),  // 0x25 DEC H
        0x26 => Instr::Ld8(Dst8::Reg(Reg8::H), Src8::Imm),  // 0x26 LD H, n
        0x27 => Instr::Daa,  // 0x27 DAA
        0x28 => Instr::Jr(Some(Flag::FlagZ)),  // 0x28 JR Z, e
        0x29 => Instr::AddHl(Reg16::HL),  // 0x29 ADD HL, HL
        0x2A => Instr::LdInc(Dst8::Reg(Reg8::A), Src8::Indirect(Reg16::HL)),  // 0x2A LD A, [HL+]
        0x2B => Instr::Dec16(Reg16::HL),  // 0x2B DEC HL
        0x2C => Instr::Inc8(RmwOperand8::Reg(Reg8::L)),  // 0x2C INC L
        0x2D => Instr::Dec8(RmwOperand8::Reg(Reg8::L)),  // 0x2D DEC L
        0x2E => Instr::Ld8(Dst8::Reg(Reg8::L), Src8::Imm),  // 0x2E LD L, n
        0x2F => Instr::Cpl,  // 0x2F CPL
        0x30 => Instr::Jr(Some(Flag::FlagNC)),  // 0x30 JR NC, e
        0x31 => Instr::Ld16(Dst16::Reg(Reg16::SP), Src16::Imm),  // 0x31 LD SP, nn
        0x32 => Instr::LdDec(Dst8::Indirect(Reg16::HL), Src8::Reg(Reg8::A)),  // 0x32 LD [HL-], A
        0x33 => Instr::Inc16(Reg16::SP),  // 0x33 INC SP
        0x34 => Instr::Inc8(RmwOperand8::Indirect(Reg16::HL)),  // 0x34 INC [HL]
        0x35 => Instr::Dec8(RmwOperand8::Indirect(Reg16::HL)),  // 0x35 DEC [HL]
        0x36 => Instr::Ld8(Dst8::Indirect(Reg16::HL), Src8::Imm),  // 0x36 LD [HL], n
        0x37 => Instr::Scf,  // 0x37 SCF
        0x38 => Instr::Jr(Some(Flag::FlagC)),  // 0x38 JR C, e
        0x39 => Instr::AddHl(Reg16::SP),  // 0x39 ADD HL, SP
        0x3A => Instr::LdDec(Dst8::Reg(Reg8::A), Src8::Indirect(Reg16::HL)),  // 0x3A LD A, [HL-]
        0x3B => Instr::Dec16(Reg16::SP),  // 0x3B DEC SP
        0x3C => Instr::Inc8(RmwOperand8::Reg(Reg8::A)),  // 0x3C INC A
        0x3D => Instr::Dec8(RmwOperand8::Reg(Reg8::A)),  // 0x3D DEC A
        0x3E => Instr::Ld8(Dst8::Reg(Reg8::A), Src8::Imm),  // 0x3E LD A, n
        0x3F => Instr::Ccf,  // 0x3F CCF
        0x40 => Instr::Ld8(Dst8::Reg(Reg8::B), Src8::Reg(Reg8::B)),  // 0x40 LD B, B
        0x41 => Instr::Ld8(Dst8::Reg(Reg8::B), Src8::Reg(Reg8::C)),  // 0x41 LD B, C
        0x42 => Instr::Ld8(Dst8::Reg(Reg8::B), Src8::Reg(Reg8::D)),  // 0x42 LD B, D
        0x43 => Instr::Ld8(Dst8::Reg(Reg8::B), Src8::Reg(Reg8::E)),  // 0x43 LD B, E
        0x44 => Instr::Ld8(Dst8::Reg(Reg8::B), Src8::Reg(Reg8::H)),  // 0x44 LD B, H
        0x45 => Instr::Ld8(Dst8::Reg(Reg8::B), Src8::Reg(Reg8::L)),  // 0x45 LD B, L
        0x46 => Instr::Ld8(Dst8::Reg(Reg8::B), Src8::Indirect(Reg16::HL)),  // 0x46 LD B, [HL]
        0x47 => Instr::Ld8(Dst8::Reg(Reg8::B), Src8::Reg(Reg8::A)),  // 0x47 LD B, A
        0x48 => Instr::Ld8(Dst8::Reg(Reg8::C), Src8::Reg(Reg8::B)),  // 0x48 LD C, B
        0x49 => Instr::Ld8(Dst8::Reg(Reg8::C), Src8::Reg(Reg8::C)),  // 0x49 LD C, C
        0x4A => Instr::Ld8(Dst8::Reg(Reg8::C), Src8::Reg(Reg8::D)),  // 0x4A LD C, D
        0x4B => Instr::Ld8(Dst8::Reg(Reg8::C), Src8::Reg(Reg8::E)),  // 0x4B LD C, E
        0x4C => Instr::Ld8(Dst8::Reg(Reg8::C), Src8::Reg(Reg8::H)),  // 0x4C LD C, H
        0x4D => Instr::Ld8(Dst8::Reg(Reg8::C), Src8::Reg(Reg8::L)),  // 0x4D LD C, L
        0x4E => Instr::Ld8(Dst8::Reg(Reg8::C), Src8::Indirect(Reg16::HL)),  // 0x4E LD C, [HL]
        0x4F => Instr::Ld8(Dst8::Reg(Reg8::C), Src8::Reg(Reg8::A)),  // 0x4F LD C, A
        0x50 => Instr::Ld8(Dst8::Reg(Reg8::D), Src8::Reg(Reg8::B)),  // 0x50 LD D, B
        0x51 => Instr::Ld8(Dst8::Reg(Reg8::D), Src8::Reg(Reg8::C)),  // 0x51 LD D, C
        0x52 => Instr::Ld8(Dst8::Reg(Reg8::D), Src8::Reg(Reg8::D)),  // 0x52 LD D, D
        0x53 => Instr::Ld8(Dst8::Reg(Reg8::D), Src8::Reg(Reg8::E)),  // 0x53 LD D, E
        0x54 => Instr::Ld8(Dst8::Reg(Reg8::D), Src8::Reg(Reg8::H)),  // 0x54 LD D, H
        0x55 => Instr::Ld8(Dst8::Reg(Reg8::D), Src8::Reg(Reg8::L)),  // 0x55 LD D, L
        0x56 => Instr::Ld8(Dst8::Reg(Reg8::D), Src8::Indirect(Reg16::HL)),  // 0x56 LD D, [HL]
        0x57 => Instr::Ld8(Dst8::Reg(Reg8::D), Src8::Reg(Reg8::A)),  // 0x57 LD D, A
        0x58 => Instr::Ld8(Dst8::Reg(Reg8::E), Src8::Reg(Reg8::B)),  // 0x58 LD E, B
        0x59 => Instr::Ld8(Dst8::Reg(Reg8::E), Src8::Reg(Reg8::C)),  // 0x59 LD E, C
        0x5A => Instr::Ld8(Dst8::Reg(Reg8::E), Src8::Reg(Reg8::D)),  // 0x5A LD E, D
        0x5B => Instr::Ld8(Dst8::Reg(Reg8::E), Src8::Reg(Reg8::E)),  // 0x5B LD E, E
        0x5C => Instr::Ld8(Dst8::Reg(Reg8::E), Src8::Reg(Reg8::H)),  // 0x5C LD E, H
        0x5D => Instr::Ld8(Dst8::Reg(Reg8::E), Src8::Reg(Reg8::L)),  // 0x5D LD E, L
        0x5E => Instr::Ld8(Dst8::Reg(Reg8::E), Src8::Indirect(Reg16::HL)),  // 0x5E LD E, [HL]
        0x5F => Instr::Ld8(Dst8::Reg(Reg8::E), Src8::Reg(Reg8::A)),  // 0x5F LD E, A
        0x60 => Instr::Ld8(Dst8::Reg(Reg8::H), Src8::Reg(Reg8::B)),  // 0x60 LD H, B
        0x61 => Instr::Ld8(Dst8::Reg(Reg8::H), Src8::Reg(Reg8::C)),  // 0x61 LD H, C
        0x62 => Instr::Ld8(Dst8::Reg(Reg8::H), Src8::Reg(Reg8::D)),  // 0x62 LD H, D
        0x63 => Instr::Ld8(Dst8::Reg(Reg8::H), Src8::Reg(Reg8::E)),  // 0x63 LD H, E
        0x64 => Instr::Ld8(Dst8::Reg(Reg8::H), Src8::Reg(Reg8::H)),  // 0x64 LD H, H
        0x65 => Instr::Ld8(Dst8::Reg(Reg8::H), Src8::Reg(Reg8::L)),  // 0x65 LD H, L
        0x66 => Instr::Ld8(Dst8::Reg(Reg8::H), Src8::Indirect(Reg16::HL)),  // 0x66 LD H, [HL]
        0x67 => Instr::Ld8(Dst8::Reg(Reg8::H), Src8::Reg(Reg8::A)),  // 0x67 LD H, A
        0x68 => Instr::Ld8(Dst8::Reg(Reg8::L), Src8::Reg(Reg8::B)),  // 0x68 LD L, B
        0x69 => Instr::Ld8(Dst8::Reg(Reg8::L), Src8::Reg(Reg8::C)),  // 0x69 LD L, C
        0x6A => Instr::Ld8(Dst8::Reg(Reg8::L), Src8::Reg(Reg8::D)),  // 0x6A LD L, D
        0x6B => Instr::Ld8(Dst8::Reg(Reg8::L), Src8::Reg(Reg8::E)),  // 0x6B LD L, E
        0x6C => Instr::Ld8(Dst8::Reg(Reg8::L), Src8::Reg(Reg8::H)),  // 0x6C LD L, H
        0x6D => Instr::Ld8(Dst8::Reg(Reg8::L), Src8::Reg(Reg8::L)),  // 0x6D LD L, L
        0x6E => Instr::Ld8(Dst8::Reg(Reg8::L), Src8::Indirect(Reg16::HL)),  // 0x6E LD L, [HL]
        0x6F => Instr::Ld8(Dst8::Reg(Reg8::L), Src8::Reg(Reg8::A)),  // 0x6F LD L, A
        0x70 => Instr::Ld8(Dst8::Indirect(Reg16::HL), Src8::Reg(Reg8::B)),  // 0x70 LD [HL], B
        0x71 => Instr::Ld8(Dst8::Indirect(Reg16::HL), Src8::Reg(Reg8::C)),  // 0x71 LD [HL], C
        0x72 => Instr::Ld8(Dst8::Indirect(Reg16::HL), Src8::Reg(Reg8::D)),  // 0x72 LD [HL], D
        0x73 => Instr::Ld8(Dst8::Indirect(Reg16::HL), Src8::Reg(Reg8::E)),  // 0x73 LD [HL], E
        0x74 => Instr::Ld8(Dst8::Indirect(Reg16::HL), Src8::Reg(Reg8::H)),  // 0x74 LD [HL], H
        0x75 => Instr::Ld8(Dst8::Indirect(Reg16::HL), Src8::Reg(Reg8::L)),  // 0x75 LD [HL], L
        0x76 => Instr::Halt,  // 0x76 HALT
        0x77 => Instr::Ld8(Dst8::Indirect(Reg16::HL), Src8::Reg(Reg8::A)),  // 0x77 LD [HL], A
        0x78 => Instr::Ld8(Dst8::Reg(Reg8::A), Src8::Reg(Reg8::B)),  // 0x78 LD A, B
        0x79 => Instr::Ld8(Dst8::Reg(Reg8::A), Src8::Reg(Reg8::C)),  // 0x79 LD A, C
        0x7A => Instr::Ld8(Dst8::Reg(Reg8::A), Src8::Reg(Reg8::D)),  // 0x7A LD A, D
        0x7B => Instr::Ld8(Dst8::Reg(Reg8::A), Src8::Reg(Reg8::E)),  // 0x7B LD A, E
        0x7C => Instr::Ld8(Dst8::Reg(Reg8::A), Src8::Reg(Reg8::H)),  // 0x7C LD A, H
        0x7D => Instr::Ld8(Dst8::Reg(Reg8::A), Src8::Reg(Reg8::L)),  // 0x7D LD A, L
        0x7E => Instr::Ld8(Dst8::Reg(Reg8::A), Src8::Indirect(Reg16::HL)),  // 0x7E LD A, [HL]
        0x7F => Instr::Ld8(Dst8::Reg(Reg8::A), Src8::Reg(Reg8::A)),  // 0x7F LD A, A
        0x80 => Instr::Add(Src8::Reg(Reg8::B)),  // 0x80 ADD A, B
        0x81 => Instr::Add(Src8::Reg(Reg8::C)),  // 0x81 ADD A, C
        0x82 => Instr::Add(Src8::Reg(Reg8::D)),  // 0x82 ADD A, D
        0x83 => Instr::Add(Src8::Reg(Reg8::E)),  // 0x83 ADD A, E
        0x84 => Instr::Add(Src8::Reg(Reg8::H)),  // 0x84 ADD A, H
        0x85 => Instr::Add(Src8::Reg(Reg8::L)),  // 0x85 ADD A, L
        0x86 => Instr::Add(Src8::Indirect(Reg16::HL)),  // 0x86 ADD A, [HL]
        0x87 => Instr::Add(Src8::Reg(Reg8::A)),  // 0x87 ADD A, A
        0x88 => Instr::Adc(Src8::Reg(Reg8::B)),  // 0x88 ADC A, B
        0x89 => Instr::Adc(Src8::Reg(Reg8::C)),  // 0x89 ADC A, C
        0x8A => Instr::Adc(Src8::Reg(Reg8::D)),  // 0x8A ADC A, D
        0x8B => Instr::Adc(Src8::Reg(Reg8::E)),  // 0x8B ADC A, E
        0x8C => Instr::Adc(Src8::Reg(Reg8::H)),  // 0x8C ADC A, H
        0x8D => Instr::Adc(Src8::Reg(Reg8::L)),  // 0x8D ADC A, L
        0x8E => Instr::Adc(Src8::Indirect(Reg16::HL)),  // 0x8E ADC A, [HL]
        0x8F => Instr::Adc(Src8::Reg(Reg8::A)),  // 0x8F ADC A, A
        0x90 => Instr::Sub(Src8::Reg(Reg8::B)),  // 0x90 SUB A, B
        0x91 => Instr::Sub(Src8::Reg(Reg8::C)),  // 0x91 SUB A, C
        0x92 => Instr::Sub(Src8::Reg(Reg8::D)),  // 0x92 SUB A, D
        0x93 => Instr::Sub(Src8::Reg(Reg8::E)),  // 0x93 SUB A, E
        0x94 => Instr::Sub(Src8::Reg(Reg8::H)),  // 0x94 SUB A, H
        0x95 => Instr::Sub(Src8::Reg(Reg8::L)),  // 0x95 SUB A, L
        0x96 => Instr::Sub(Src8::Indirect(Reg16::HL)),  // 0x96 SUB A, [HL]
        0x97 => Instr::Sub(Src8::Reg(Reg8::A)),  // 0x97 SUB A, A
        0x98 => Instr::Sbc(Src8::Reg(Reg8::B)),  // 0x98 SBC A, B
        0x99 => Instr::Sbc(Src8::Reg(Reg8::C)),  // 0x99 SBC A, C
        0x9A => Instr::Sbc(Src8::Reg(Reg8::D)),  // 0x9A SBC A, D
        0x9B => Instr::Sbc(Src8::Reg(Reg8::E)),  // 0x9B SBC A, E
        0x9C => Instr::Sbc(Src8::Reg(Reg8::H)),  // 0x9C SBC A, H
        0x9D => Instr::Sbc(Src8::Reg(Reg8::L)),  // 0x9D SBC A, L
        0x9E => Instr::Sbc(Src8::Indirect(Reg16::HL)),  // 0x9E SBC A, [HL]
        0x9F => Instr::Sbc(Src8::Reg(Reg8::A)),  // 0x9F SBC A, A
        0xA0 => Instr::And(Src8::Reg(Reg8::B)),  // 0xA0 AND A, B
        0xA1 => Instr::And(Src8::Reg(Reg8::C)),  // 0xA1 AND A, C
        0xA2 => Instr::And(Src8::Reg(Reg8::D)),  // 0xA2 AND A, D
        0xA3 => Instr::And(Src8::Reg(Reg8::E)),  // 0xA3 AND A, E
        0xA4 => Instr::And(Src8::Reg(Reg8::H)),  // 0xA4 AND A, H
        0xA5 => Instr::And(Src8::Reg(Reg8::L)),  // 0xA5 AND A, L
        0xA6 => Instr::And(Src8::Indirect(Reg16::HL)),  // 0xA6 AND A, [HL]
        0xA7 => Instr::And(Src8::Reg(Reg8::A)),  // 0xA7 AND A, A
        0xA8 => Instr::Xor(Src8::Reg(Reg8::B)),  // 0xA8 XOR A, B
        0xA9 => Instr::Xor(Src8::Reg(Reg8::C)),  // 0xA9 XOR A, C
        0xAA => Instr::Xor(Src8::Reg(Reg8::D)),  // 0xAA XOR A, D
        0xAB => Instr::Xor(Src8::Reg(Reg8::E)),  // 0xAB XOR A, E
        0xAC => Instr::Xor(Src8::Reg(Reg8::H)),  // 0xAC XOR A, H
        0xAD => Instr::Xor(Src8::Reg(Reg8::L)),  // 0xAD XOR A, L
        0xAE => Instr::Xor(Src8::Indirect(Reg16::HL)),  // 0xAE XOR A, [HL]
        0xAF => Instr::Xor(Src8::Reg(Reg8::A)),  // 0xAF XOR A, A
        0xB0 => Instr::Or(Src8::Reg(Reg8::B)),  // 0xB0 OR A, B
        0xB1 => Instr::Or(Src8::Reg(Reg8::C)),  // 0xB1 OR A, C
        0xB2 => Instr::Or(Src8::Reg(Reg8::D)),  // 0xB2 OR A, D
        0xB3 => Instr::Or(Src8::Reg(Reg8::E)),  // 0xB3 OR A, E
        0xB4 => Instr::Or(Src8::Reg(Reg8::H)),  // 0xB4 OR A, H
        0xB5 => Instr::Or(Src8::Reg(Reg8::L)),  // 0xB5 OR A, L
        0xB6 => Instr::Or(Src8::Indirect(Reg16::HL)),  // 0xB6 OR A, [HL]
        0xB7 => Instr::Or(Src8::Reg(Reg8::A)),  // 0xB7 OR A, A
        0xB8 => Instr::Cp(Src8::Reg(Reg8::B)),  // 0xB8 CP A, B
        0xB9 => Instr::Cp(Src8::Reg(Reg8::C)),  // 0xB9 CP A, C
        0xBA => Instr::Cp(Src8::Reg(Reg8::D)),  // 0xBA CP A, D
        0xBB => Instr::Cp(Src8::Reg(Reg8::E)),  // 0xBB CP A, E
        0xBC => Instr::Cp(Src8::Reg(Reg8::H)),  // 0xBC CP A, H
        0xBD => Instr::Cp(Src8::Reg(Reg8::L)),  // 0xBD CP A, L
        0xBE => Instr::Cp(Src8::Indirect(Reg16::HL)),  // 0xBE CP A, [HL]
        0xBF => Instr::Cp(Src8::Reg(Reg8::A)),  // 0xBF CP A, A
        0xC0 => Instr::Ret(Some(Flag::FlagNZ)),  // 0xC0 RET NZ
        0xC1 => Instr::Pop(Reg16::BC),  // 0xC1 POP BC
        0xC2 => Instr::Jp(Some(Flag::FlagNZ)),  // 0xC2 JP NZ, nn
        0xC3 => Instr::Jp(None),  // 0xC3 JP nn
        0xC4 => Instr::Call(Some(Flag::FlagNZ)),  // 0xC4 CALL NZ, nn
        0xC5 => Instr::Push(Reg16::BC),  // 0xC5 PUSH BC
        0xC6 => Instr::Add(Src8::Imm),  // 0xC6 ADD A, n
        0xC7 => Instr::Rst(0x00),  // 0xC7 RST 00H
        0xC8 => Instr::Ret(Some(Flag::FlagZ)),  // 0xC8 RET Z
        0xC9 => Instr::Ret(None),  // 0xC9 RET
        0xCA => Instr::Jp(Some(Flag::FlagZ)),  // 0xCA JP Z, nn
        0xCB => Instr::Cb,  // 0xCB CB prefix
        0xCC => Instr::Call(Some(Flag::FlagZ)),  // 0xCC CALL Z, nn
        0xCD => Instr::Call(None),  // 0xCD CALL nn
        0xCE => Instr::Adc(Src8::Imm),  // 0xCE ADC A, n
        0xCF => Instr::Rst(0x08),  // 0xCF RST 08H
        0xD0 => Instr::Ret(Some(Flag::FlagNC)),  // 0xD0 RET NC
        0xD1 => Instr::Pop(Reg16::DE),  // 0xD1 POP DE
        0xD2 => Instr::Jp(Some(Flag::FlagNC)),  // 0xD2 JP NC, nn
        0xD3 => Instr::Invalid,  // 0xD3 (invalid)
        0xD4 => Instr::Call(Some(Flag::FlagNC)),  // 0xD4 CALL NC, nn
        0xD5 => Instr::Push(Reg16::DE),  // 0xD5 PUSH DE
        0xD6 => Instr::Sub(Src8::Imm),  // 0xD6 SUB A, n
        0xD7 => Instr::Rst(0x10),  // 0xD7 RST 10H
        0xD8 => Instr::Ret(Some(Flag::FlagC)),  // 0xD8 RET C
        0xD9 => Instr::Reti,  // 0xD9 RETI
        0xDA => Instr::Jp(Some(Flag::FlagC)),  // 0xDA JP C, nn
        0xDB => Instr::Invalid,  // 0xDB (invalid)
        0xDC => Instr::Call(Some(Flag::FlagC)),  // 0xDC CALL C, nn
        0xDD => Instr::Invalid,  // 0xDD (invalid)
        0xDE => Instr::Sbc(Src8::Imm),  // 0xDE SBC A, n
        0xDF => Instr::Rst(0x18),  // 0xDF RST 18H
        0xE0 => Instr::Ld8(Dst8::HighMemImm, Src8::Reg(Reg8::A)),  // 0xE0 LDH [n], A
        0xE1 => Instr::Pop(Reg16::HL),  // 0xE1 POP HL
        0xE2 => Instr::Ld8(Dst8::HighMemC, Src8::Reg(Reg8::A)),  // 0xE2 LD [C], A
        0xE3 => Instr::Invalid,  // 0xE3 (invalid)
        0xE4 => Instr::Invalid,  // 0xE4 (invalid)
        0xE5 => Instr::Push(Reg16::HL),  // 0xE5 PUSH HL
        0xE6 => Instr::And(Src8::Imm),  // 0xE6 AND A, n
        0xE7 => Instr::Rst(0x20),  // 0xE7 RST 20H
        0xE8 => Instr::AddSp,  // 0xE8 ADD SP, e
        0xE9 => Instr::JpHl,  // 0xE9 JP HL
        0xEA => Instr::Ld8(Dst8::MemImm, Src8::Reg(Reg8::A)),  // 0xEA LD [nn], A
        0xEB => Instr::Invalid,  // 0xEB (invalid)
        0xEC => Instr::Invalid,  // 0xEC (invalid)
        0xED => Instr::Invalid,  // 0xED (invalid)
        0xEE => Instr::Xor(Src8::Imm),  // 0xEE XOR A, n
        0xEF => Instr::Rst(0x28),  // 0xEF RST 28H
        0xF0 => Instr::Ld8(Dst8::Reg(Reg8::A), Src8::HighMemImm),  // 0xF0 LDH A, [n]
        0xF1 => Instr::Pop(Reg16::AF),  // 0xF1 POP AF
        0xF2 => Instr::Ld8(Dst8::Reg(Reg8::A), Src8::HighMemC),  // 0xF2 LD A, [C]
        0xF3 => Instr::Di,  // 0xF3 DI
        0xF4 => Instr::Invalid,  // 0xF4 (invalid)
        0xF5 => Instr::Push(Reg16::AF),  // 0xF5 PUSH AF
        0xF6 => Instr::Or(Src8::Imm),  // 0xF6 OR A, n
        0xF7 => Instr::Rst(0x30),  // 0xF7 RST 30H
        0xF8 => Instr::LdHlSpOffset,  // 0xF8 LD HL, SP+e
        0xF9 => Instr::LdSpHl,  // 0xF9 LD SP, HL
        0xFA => Instr::Ld8(Dst8::Reg(Reg8::A), Src8::MemImm),  // 0xFA LD A, [nn]
        0xFB => Instr::Ei,  // 0xFB EI
        0xFC => Instr::Invalid,  // 0xFC (invalid)
        0xFD => Instr::Invalid,  // 0xFD (invalid)
        0xFE => Instr::Cp(Src8::Imm),  // 0xFE CP A, n
        0xFF => Instr::Rst(0x38),  // 0xFF RST 38H
    }
}


/// Every opcode's instruction is one to three bytes long.
pub proof fn lemma_length_bound(opcode: u8)
    ensures
        1 <= instr_table(opcode).spec_length() <= 3,
{
}

/// Number of operand bytes after an opcode (derived from instruction definitions)
pub fn instr_data_length(opcode: u8) -> (r: usize)
    ensures
        r == instr_table(opcode).spec_length() - 1,
{
    decode(opcode).length() - 1
}

impl vstd::std_specs::convert::FromSpecImpl<u8> for Instr {
    open spec fn obeys_from_spec() -> bool {
        true
    }

    open spec fn from_spec(v: u8) -> Instr {
        instr_table(v)
    }
}

impl From<u8> for Instr {
    fn from(value: u8) -> (r: Self) {
        decode(value)
    }
}

impl Instr {
    /// Instruction length in bytes, opcode included.
    pub open spec fn spec_length(&self) -> nat {
        1 + match *self {
            Instr::Ld8(dst, src) | Instr::LdInc(dst, src) | Instr::LdDec(dst, src) => dst.spec_imm_bytes() + src.spec_imm_bytes(),
            Instr::Ld16(dst, src) => dst.spec_imm_bytes() + src.spec_imm_bytes(),
            Instr::LdHlSpOffset | Instr::AddSp | Instr::Jr(_) | Instr::Cb => 1,
            Instr::Jp(_) | Instr::Call(_) => 2,
            Instr::Add(src) | Instr::Adc(src) | Instr::Sub(src) | Instr::Sbc(src) | Instr::And(src)
            | Instr::Xor(src) | Instr::Or(src) | Instr::Cp(src) => src.spec_imm_bytes(),
            _ => 0,
        }
    }

    /// Calculate instruction length (including opcode byte)
    #[allow(clippy::match_same_arms)]
    pub fn length(&self) -> (r: usize)
        ensures
            r == self.spec_length(),
    {
        1 + match *self {
            Instr::Ld8(dst, src) | Instr::LdInc(dst, src) | Instr::LdDec(dst, src) => dst.imm_bytes() + src.imm_bytes(),
            Instr::Ld16(dst, src) => dst.imm_bytes() + src.imm_bytes(),
            Instr::LdHlSpOffset | Instr::AddSp | Instr::Jr(_) | Instr::Cb => 1,
            Instr::Jp(_) | Instr::Call(_) => 2,
            Instr::Add(src) | Instr::Adc(src) | Instr::Sub(src) | Instr::Sbc(src) | Instr::And(src)
            | Instr::Xor(src) | Instr::Or(src) | Instr::Cp(src) => src.imm_bytes(),
            _ => 0,
        }
    }

    /// Executing this instruction: new CPU and new bus.
    pub open spec fn run_spec(self, c: CPU, b: BusView) -> (CPU, BusView) {
        match self {
            Instr::Nop | Instr::Invalid | Instr::Stop | Instr::Halt => (c, b),
            Instr::Ld8(dst, src) => ld::ld8_spec(dst, src, c, b),
            Instr::LdInc(dst, src) => ld::ld_inc_spec(dst, src, c, b),
            Instr::LdDec(dst, src) => ld::ld_dec_spec(dst, src, c, b),
            Instr::Ld16(dst, src) => ld::ld16_spec(dst, src, c, b),
            Instr::LdSpHl => ld::ld_sp_hl_spec(c, b),
            Instr::LdHlSpOffset => ld::ld_hl_sp_offset_spec(c, b),
            Instr::Add(src) => alu::add_spec(src, c, b),
            Instr::Adc(src) => alu::adc_spec(src, c, b),
            Instr::Sub(src) => alu::sub_spec(src, c, b),
            Instr::Sbc(src) => alu::sbc_spec(src, c, b),
            Instr::And(src) => alu::and_spec(src, c, b),
            Instr::Xor(src) => alu::xor_spec(src, c, b),
            Instr::Or(src) => alu::or_spec(src, c, b),
            Instr::Cp(src) => alu::cp_spec(src, c, b),
            Instr::Inc8(op) => alu::inc8_spec(op, c, b),
            Instr::Dec8(op) => alu::dec8_spec(op, c, b),
            Instr::Inc16(r) => alu::inc16_spec(r, c, b),
            Instr::Dec16(r) => alu::dec16_spec(r, c, b),
            Instr::AddHl(r) => alu::add_hl_spec(r, c, b),
            Instr::AddSp => alu::add_sp_spec(c, b),
            Instr::Rlca => (alu::rlca_spec(c), b),
            Instr::Rrca => (alu::rrca_spec(c), b),
            Instr::Rla => (alu::rla_spec(c), b),
            Instr::Rra => (alu::rra_spec(c), b),
            Instr::Daa => (alu::daa_spec(c), b),
            Instr::Cpl => (alu::cpl_spec(c), b),
            Instr::Scf => (alu::scf_spec(c), b),
            Instr::Ccf => (alu::ccf_spec(c), b),
            Instr::Cb => cb::cb_spec(c, b),
            Instr::Jr(flag) => jp::jr_spec(flag, c, b),
            Instr::Jp(flag) => jp::jp_spec(flag, c, b),
            Instr::JpHl => (jp::jp_hl_spec(c), b),
            Instr::Call(flag) => jp::call_spec(flag, c, b),
            Instr::Ret(flag) => jp::ret_spec(flag, c, b),
            Instr::Reti => jp::reti_spec(c, b),
            Instr::Rst(vector) => jp::rst_spec(vector, c, b),
            Instr::Push(r) => misc::push_spec(r, c, b),
            Instr::Pop(r) => misc::pop_spec(r, c, b),
            Instr::Di => (c, BusView { ime: 0, ..b }),
            Instr::Ei => (c, BusView { ime: 1, ..b }),
        }
    }

    /// Whether executing this instruction is defined: it is not the
    /// invalid opcode, and its writes are ones the bus can take.
    pub open spec fn run_ok(self, c: CPU, b: BusView) -> bool {
        match self {
            Instr::Invalid => false,
            Instr::Ld8(dst, src) | Instr::LdInc(dst, src) | Instr::LdDec(dst, src) => ld::ld8_ok(dst, src, c, b),
            Instr::Ld16(dst, src) => ld::ld16_ok(dst, src, c, b),
            Instr::Inc8(op) => alu::inc8_ok(op, c, b),
            Instr::Dec8(op) => alu::dec8_ok(op, c, b),
            Instr::Cb => cb::cb_ok(c, b),
            Instr::Call(flag) => jp::call_ok(flag, c, b),
            Instr::Rst(_) => jp::rst_ok(c, b),
            Instr::Push(r) => misc::push_ok(r, c, b),
            _ => true,
        }
    }

    /// Loads and stack transfers.
    fn run_load(self, cpu: &mut CPU, bus: &mut Bus)
        requires
            self is Ld8 || self is LdInc || self is LdDec || self is Ld16 || self is LdSpHl
                || self is LdHlSpOffset || self is Push || self is Pop,
            old(bus).wf(),
            old(bus)@.room(400),
            self.run_ok(*old(cpu), old(bus)@),
        ensures
            final(bus).wf(),
            (*final(cpu), final(bus)@) == self.run_spec(*old(cpu), old(bus)@),
            advanced(old(bus)@, final(bus)@, 400),
    {
        match self {
            // 8-bit loads
            Instr::Ld8(dst, src) => ld::ld8(dst, src, cpu, bus),
            Instr::LdInc(dst, src) => ld::ld_inc(dst, src, cpu, bus),
            Instr::LdDec(dst, src) => ld::ld_dec(dst, src, cpu, bus),
            // 16-bit loads
            Instr::Ld16(dst, src) => ld::ld16(dst, src, cpu, bus),
            Instr::LdSpHl => ld::ld_sp_hl(cpu, bus),
            Instr::LdHlSpOffset => ld::ld_hl_sp_offset(cpu, bus),
            // Stack
            Instr::Push(r) => misc::push(r, cpu, bus),
            Instr::Pop(r) => misc::pop(r, cpu, bus),
            _ => {},
        }
    }

    /// Arithmetic and logic with an operand read through the bus.
    fn run_alu(self, cpu: &mut CPU, bus: &mut Bus)
        requires
            self is Add || self is Adc || self is Sub || self is Sbc || self is And || self is Xor
                || self is Or || self is Cp || self is Inc8 || self is Dec8 || self is Inc16
                || self is Dec16 || self is AddHl || self is AddSp,
            old(bus).wf(),
            old(bus)@.room(400),
            self.run_ok(*old(cpu), old(bus)@),
        ensures
            final(bus).wf(),
            (*final(cpu), final(bus)@) == self.run_spec(*old(cpu), old(bus)@),
            advanced(old(bus)@, final(bus)@, 400),
    {
        match self {
            // 8-bit ALU
            Instr::Add(src) => alu::add(src, cpu, bus),
            Instr::Adc(src) => alu::adc(src, cpu, bus),
            Instr::Sub(src) => alu::sub(src, cpu, bus),
            Instr::Sbc(src) => alu::sbc(src, cpu, bus),
            Instr::And(src) => alu::and(src, cpu, bus),
            Instr::Xor(src) => alu::xor(src, cpu, bus),
            Instr::Or(src) => alu::or(src, cpu, bus),
            Instr::Cp(src) => alu::cp(src, cpu, bus),
            // 8-bit INC/DEC
            Instr::Inc8(op) => alu::inc8(op, cpu, bus),
            Instr::Dec8(op) => alu::dec8(op, cpu, bus),
            // 16-bit INC/DEC
            Instr::Inc16(r) => alu::inc16(r, cpu, bus),
            Instr::Dec16(r) => alu::dec16(r, cpu, bus),
            // 16-bit ADD
            Instr::AddHl(r) => alu::add_hl(r, cpu, bus),
            Instr::AddSp => alu::add_sp(cpu, bus),
            _ => {},
        }
    }

    /// Jumps, calls, returns and the CB-prefixed table.
    fn run_flow(self, cpu: &mut CPU, bus: &mut Bus)
        requires
            self is Cb || self is Jr || self is Jp || self is JpHl || self is Call || self is Ret
                || self is Reti || self is Rst,
            old(bus).wf(),
            old(bus)@.room(400),
            self.run_ok(*old(cpu), old(bus)@),
        ensures
            final(bus).wf(),
            (*final(cpu), final(bus)@) == self.run_spec(*old(cpu), old(bus)@),
            advanced(old(bus)@, final(bus)@, 400),
    {
        match self {
            // CB prefix
            Instr::Cb => cb::cb(cpu, bus),
            // Jumps
            Instr::Jr(flag) => jp::jr(flag, cpu, bus),
            Instr::Jp(flag) => jp::jp(flag, cpu, bus),
            Instr::JpHl => jp::jp_hl(cpu),
            // Calls and returns
            Instr::Call(flag) => jp::call(flag, cpu, bus),
            Instr::Ret(flag) => jp::ret(flag, cpu, bus),
            Instr::Reti => jp::reti(cpu, bus),
            Instr::Rst(vector) => jp::rst(vector, cpu, bus),
            _ => {},
        }
    }

    /// Execute this instruction
    #[must_use]
    #[allow(clippy::match_same_arms)]
    pub fn run(self, cpu: &mut CPU, bus: &mut Bus) -> (r: Self)
        requires
            old(bus).wf(),
            old(bus)@.room(400),
            self.run_ok(*old(cpu), old(bus)@),
        ensures
            r == self,
            final(bus).wf(),
            (*final(cpu), final(bus)@) == self.run_spec(*old(cpu), old(bus)@),
            advanced(old(bus)@, final(bus)@, 400),
    {
        match self {
            Instr::Nop => {},
            Instr::Invalid => {},
            Instr::Stop => {},  // STOP halts until button press - treated as NOP
            Instr::Halt => {},  // Handled by CPU state machine
            Instr::Ld8(..) | Instr::LdInc(..) | Instr::LdDec(..) | Instr::Ld16(..) | Instr::LdSpHl
            | Instr::LdHlSpOffset | Instr::Push(_) | Instr::Pop(_) => self.run_load(cpu, bus),
            Instr::Add(_) | Instr::Adc(_) | Instr::Sub(_) | Instr::Sbc(_) | Instr::And(_)
            | Instr::Xor(_) | Instr::Or(_) | Instr::Cp(_) | Instr::Inc8(_) | Instr::Dec8(_)
            | Instr::Inc16(_) | Instr::Dec16(_) | Instr::AddHl(_) | Instr::AddSp => self.run_alu(
                cpu,
                bus,
            ),
            // Rotates on A
            Instr::Rlca => alu::rlca(cpu),
            Instr::Rrca => alu::rrca(cpu),
            Instr::Rla => alu::rla(cpu),
            Instr::Rra => alu::rra(cpu),
            // Misc ALU
            Instr::Daa => alu::daa(cpu),
            Instr::Cpl => alu::cpl(cpu),
            Instr::Scf => alu::scf(cpu),
            Instr::Ccf => alu::ccf(cpu),
            Instr::Cb | Instr::Jr(_) | Instr::Jp(_) | Instr::JpHl | Instr::Call(_) | Instr::Ret(_)
            | Instr::Reti | Instr::Rst(_) => self.run_flow(cpu, bus),
            // Interrupts
            Instr::Di => bus.disable_interrupts(),
            Instr::Ei => bus.enable_interrupts(),
        }
        self
    }
}


// ============================================================================
// Assembly text of instructions
// ============================================================================

/// `a + b`.
fn join2(a: &str, b: String) -> (r: String)
    ensures
        r@ == a@ + b@,
{
    let mut s = String::from_str(a);
    s.append(b.as_str());
    s
}

/// `a + b + c`.
fn join3(a: &str, b: String, c: &str) -> (r: String)
    ensures
        r@ == a@ + b@ + c@,
{
    let mut s = join2(a, b);
    s.append(c);
    s
}

/// `a + b + ", " + d + e`: a two-operand form.
fn join_pair(a: &str, b: String, d: String, e: &str) -> (r: String)
    ensures
        r@ == a@ + b@ + ", "@ + d@ + e@,
{
    let mut s = join3(a, b, ", ");
    s.append(d.as_str());
    s.append(e);
    s
}

impl Flag {
    /// The condition's name as `{:?}` prints it.
    pub open spec fn text(self) -> Seq<char> {
        match self {
            Flag::FlagNZ => "FlagNZ"@,
            Flag::FlagZ => "FlagZ"@,
            Flag::FlagC => "FlagC"@,
            Flag::FlagNC => "FlagNC"@,
        }
    }

    /// The condition's name as `{:?}` prints it.
    pub fn to_string(&self) -> (r: String)
        ensures
            r@ == self.text(),
    {
        match self {
            Flag::FlagNZ => String::from_str("FlagNZ"),
            Flag::FlagZ => String::from_str("FlagZ"),
            Flag::FlagC => String::from_str("FlagC"),
            Flag::FlagNC => String::from_str("FlagNC"),
        }
    }
}

impl Instr {
    /// The instruction in assembly notation; operands that come from the
    /// instruction stream are written n, nn or e.
    pub open spec fn text(self) -> Seq<char> {
        match self {
            Instr::Nop => "NOP"@,
            Instr::Invalid => "INVALID"@,
            Instr::Stop => "STOP"@,
            Instr::Halt => "HALT"@,
            Instr::Ld8(dst, src) => "LD "@ + dst.text() + ", "@ + src.text() + ""@,
            Instr::LdInc(dst, src) => "LD "@ + dst.text() + ", "@ + src.text() + " (HL+)"@,
            Instr::LdDec(dst, src) => "LD "@ + dst.text() + ", "@ + src.text() + " (HL-)"@,
            Instr::Ld16(dst, src) => "LD "@ + dst.text() + ", "@ + src.text() + ""@,
            Instr::LdSpHl => "LD SP, HL"@,
            Instr::LdHlSpOffset => "LD HL, SP+e"@,
            Instr::Add(src) => "ADD A, "@ + src.text(),
            Instr::Adc(src) => "ADC A, "@ + src.text(),
            Instr::Sub(src) => "SUB A, "@ + src.text(),
            Instr::Sbc(src) => "SBC A, "@ + src.text(),
            Instr::And(src) => "AND A, "@ + src.text(),
            Instr::Xor(src) => "XOR A, "@ + src.text(),
            Instr::Or(src) => "OR A, "@ + src.text(),
            Instr::Cp(src) => "CP A, "@ + src.text(),
            Instr::Inc8(op) => "INC "@ + op.text(),
            Instr::Dec8(op) => "DEC "@ + op.text(),
            Instr::Inc16(r) => "INC "@ + r.text(),
            Instr::Dec16(r) => "DEC "@ + r.text(),
            Instr::AddHl(r) => "ADD HL, "@ + r.text(),
            Instr::AddSp => "ADD SP, e"@,
            Instr::Rlca => "RLCA"@,
            Instr::Rrca => "RRCA"@,
            Instr::Rla => "RLA"@,
            Instr::Rra => "RRA"@,
            Instr::Daa => "DAA"@,
            Instr::Cpl => "CPL"@,
            Instr::Scf => "SCF"@,
            Instr::Ccf => "CCF"@,
            Instr::Cb => "CB"@,
            Instr::Jr(None) => "JR e"@,
            Instr::Jr(Some(flag)) => "JR "@ + flag.text() + ", e"@,
            Instr::Jp(None) => "JP nn"@,
            Instr::Jp(Some(flag)) => "JP "@ + flag.text() + ", nn"@,
            Instr::JpHl => "JP HL"@,
            Instr::Call(None) => "CALL nn"@,
            Instr::Call(Some(flag)) => "CALL "@ + flag.text() + ", nn"@,
            Instr::Ret(None) => "RET"@,
            Instr::Ret(Some(flag)) => "RET "@ + flag.text(),
            Instr::Reti => "RETI"@,
            Instr::Rst(vector) => "RST "@ + hex_text(vector as nat, 2) + "H"@,
            Instr::Push(r) => "PUSH "@ + r.text(),
            Instr::Pop(r) => "POP "@ + r.text(),
            Instr::Di => "DI"@,
            Instr::Ei => "EI"@,
        }
    }

    /// The instruction in assembly notation.
    pub fn to_string(&self) -> (r: String)
        ensures
            r@ == self.text(),
    {
        match *self {
            Instr::Nop => String::from_str("NOP"),
            Instr::Invalid => String::from_str("INVALID"),
            Instr::Stop => String::from_str("STOP"),
            Instr::Halt => String::from_str("HALT"),
            Instr::Ld8(dst, src) => join_pair("LD ", dst.to_string(), src.to_string(), ""),
            Instr::LdInc(dst, src) => join_pair("LD ", dst.to_string(), src.to_string(), " (HL+)"),
            Instr::LdDec(dst, src) => join_pair("LD ", dst.to_string(), src.to_string(), " (HL-)"),
            Instr::Ld16(dst, src) => join_pair("LD ", dst.to_string(), src.to_string(), ""),
            Instr::LdSpHl => String::from_str("LD SP, HL"),
            Instr::LdHlSpOffset => String::from_str("LD HL, SP+e"),
            Instr::Add(src) => join2("ADD A, ", src.to_string()),
            Instr::Adc(src) => join2("ADC A, ", src.to_string()),
            Instr::Sub(src) => join2("SUB A, ", src.to_string()),
            Instr::Sbc(src) => join2("SBC A, ", src.to_string()),
            Instr::And(src) => join2("AND A, ", src.to_string()),
            Instr::Xor(src) => join2("XOR A, ", src.to_string()),
            Instr::Or(src) => join2("OR A, ", src.to_string()),
            Instr::Cp(src) => join2("CP A, ", src.to_string()),
            Instr::Inc8(op) => join2("INC ", op.to_string()),
            Instr::Dec8(op) => join2("DEC ", op.to_string()),
            Instr::Inc16(r) => join2("INC ", r.to_string()),
            Instr::Dec16(r) => join2("DEC ", r.to_string()),
            Instr::AddHl(r) => join2("ADD HL, ", r.to_string()),
            Instr::AddSp => String::from_str("ADD SP, e"),
            Instr::Rlca => String::from_str("RLCA"),
            Instr::Rrca => String::from_str("RRCA"),
            Instr::Rla => String::from_str("RLA"),
            Instr::Rra => String::from_str("RRA"),
            Instr::Daa => String::from_str("DAA"),
            Instr::Cpl => String::from_str("CPL"),
            Instr::Scf => String::from_str("SCF"),
            Instr::Ccf => String::from_str("CCF"),
            Instr::Cb => String::from_str("CB"),
            Instr::Jr(None) => String::from_str("JR e"),
            Instr::Jr(Some(flag)) => join3("JR ", flag.to_string(), ", e"),
            Instr::Jp(None) => String::from_str("JP nn"),
            Instr::Jp(Some(flag)) => join3("JP ", flag.to_string(), ", nn"),
            Instr::JpHl => String::from_str("JP HL"),
            Instr::Call(None) => String::from_str("CALL nn"),
            Instr::Call(Some(flag)) => join3("CALL ", flag.to_string(), ", nn"),
            Instr::Ret(None) => String::from_str("RET"),
            Instr::Ret(Some(flag)) => join2("RET ", flag.to_string()),
            Instr::Reti => String::from_str("RETI"),
            Instr::Rst(vector) => {
                let mut s = String::from_str("RST ");
                append_hex(&mut s, vector as u16, 2);
                s.append("H");
                s
            },
            Instr::Push(r) => join2("PUSH ", r.to_string()),
            Instr::Pop(r) => join2("POP ", r.to_string()),
            Instr::Di => String::from_str("DI"),
            Instr::Ei => String::from_str("EI"),
        }
    }
}


// ============================================================================
// Instruction length and the program counter
// ============================================================================

impl Instr {
    /// Instructions that may set PC themselves, or stop the CPU.
    pub open spec fn is_control_flow(self) -> bool {
        self is Jr || self is Jp || self is JpHl || self is Call || self is Ret || self is Reti
            || self is Rst || self is Halt || self is Invalid
    }
}

/// Two wrapping advances are one.
proof fn lemma_wrap16_add(p: int, a: int, b: int)
    requires
        0 <= p,
        0 <= a,
        0 <= b,
    ensures
        wrap16(wrap16(p + a) + b) == wrap16(p + a + b),
{
    vstd::arithmetic::div_mod::lemma_add_mod_noop(p + a, b, 65536);
    vstd::arithmetic::div_mod::lemma_mod_twice(p + a, 65536);
    vstd::arithmetic::div_mod::lemma_add_mod_noop((p + a) % 65536, b, 65536);
}

/// Reading a byte source moves PC past its immediate bytes.
proof fn lemma_src8_pc(src: Src8, c: CPU, b: BusView)
    ensures
        src.read_spec(c, b).0.registers.pc == wrap16(c.registers.pc + src.spec_imm_bytes()),
{
    lemma_wrap16_add(c.registers.pc as int, 1, 1);
    assert(wrap16(c.registers.pc + 0) == c.registers.pc);
}

/// Writing a byte destination moves PC past its immediate bytes.
proof fn lemma_dst8_pc(dst: Dst8, c: CPU, b: BusView, v: u8)
    ensures
        dst.write_spec(c, b, v).0.registers.pc == wrap16(c.registers.pc + dst.spec_imm_bytes()),
{
    lemma_wrap16_add(c.registers.pc as int, 1, 1);
    assert(wrap16(c.registers.pc + 0) == c.registers.pc);
}

/// Reading a word source moves PC past its immediate bytes.
proof fn lemma_src16_pc(src: Src16, c: CPU, b: BusView)
    ensures
        src.read_spec(c, b).0.registers.pc == wrap16(c.registers.pc + src.spec_imm_bytes()),
{
    lemma_wrap16_add(c.registers.pc as int, 1, 1);
    assert(wrap16(c.registers.pc + 0) == c.registers.pc);
}

/// Writing a word destination moves PC past its immediate bytes.
proof fn lemma_dst16_pc(dst: Dst16, c: CPU, b: BusView, v: u16)
    ensures
        dst.write_spec(c, b, v).0.registers.pc == wrap16(c.registers.pc + dst.spec_imm_bytes()),
{
    lemma_wrap16_add(c.registers.pc as int, 1, 1);
    assert(wrap16(c.registers.pc + 0) == c.registers.pc);
}

/// An instruction that does not jump moves PC past its operand bytes: by
/// its length less the opcode byte, which the fetch already passed.
#[verifier::spinoff_prover]
#[verifier::rlimit(80)]
pub proof fn law_length_pc(i: Instr, c: CPU, b: BusView)
    requires
        !i.is_control_flow(),
    ensures
        1 <= i.spec_length() <= 5,
        i.run_spec(c, b).0.registers.pc == wrap16(c.registers.pc + i.spec_length() - 1),
{
    let pc = c.registers.pc as int;
    assert(wrap16(pc + 0) == pc);
    match i {
        Instr::Ld8(dst, src) | Instr::LdInc(dst, src) | Instr::LdDec(dst, src) => {
            lemma_src8_pc(src, c, b);
            let (c1, b1, v) = src.read_spec(c, b);
            lemma_dst8_pc(dst, c1, b1, v);
            lemma_wrap16_add(pc, src.spec_imm_bytes() as int, dst.spec_imm_bytes() as int);
        },
        Instr::Ld16(dst, src) => {
            lemma_src16_pc(src, c, b);
            let (c1, b1, v) = src.read_spec(c, b);
            lemma_dst16_pc(dst, c1, b1, v);
            lemma_wrap16_add(pc, src.spec_imm_bytes() as int, dst.spec_imm_bytes() as int);
        },
        Instr::Add(src) | Instr::Adc(src) | Instr::Sub(src) | Instr::Sbc(src) | Instr::And(src)
        | Instr::Xor(src) | Instr::Or(src) | Instr::Cp(src) => {
            lemma_src8_pc(src, c, b);
        },
        _ => {},
    }
}

/// The 8-bit operand that bits 0-2 of an opcode name, in the opcode map's
/// order B, C, D, E, H, L, (HL), A.
pub open spec fn map_src(j: int) -> Src8 {
    if j == 0 {
        Src8::Reg(Reg8::B)
    } else if j == 1 {
        Src8::Reg(Reg8::C)
    } else if j == 2 {
        Src8::Reg(Reg8::D)
    } else if j == 3 {
        Src8::Reg(Reg8::E)
    } else if j == 4 {
        Src8::Reg(Reg8::H)
    } else if j == 5 {
        Src8::Reg(Reg8::L)
    } else if j == 6 {
        Src8::Indirect(Reg16::HL)
    } else {
        Src8::Reg(Reg8::A)
    }
}

/// The same operand as the destination of a load (bits 3-5 name it).
pub open spec fn map_dst(j: int) -> Dst8 {
    match map_src(j) {
        Src8::Reg(r) => Dst8::Reg(r),
        _ => Dst8::Indirect(Reg16::HL),
    }
}

/// The same operand as the one INC and DEC read and write back.
pub open spec fn map_rmw(j: int) -> RmwOperand8 {
    match map_src(j) {
        Src8::Reg(r) => RmwOperand8::Reg(r),
        _ => RmwOperand8::Indirect(Reg16::HL),
    }
}

/// The operation on A that bits 3-5 of an ALU opcode name, in the order
/// ADD, ADC, SUB, SBC, AND, XOR, OR, CP.
pub open spec fn map_alu(k: int, src: Src8) -> Instr {
    if k == 0 {
        Instr::Add(src)
    } else if k == 1 {
        Instr::Adc(src)
    } else if k == 2 {
        Instr::Sub(src)
    } else if k == 3 {
        Instr::Sbc(src)
    } else if k == 4 {
        Instr::And(src)
    } else if k == 5 {
        Instr::Xor(src)
    } else if k == 6 {
        Instr::Or(src)
    } else {
        Instr::Cp(src)
    }
}

/// The condition that bits 3-4 of a conditional opcode name, in the order
/// NZ, Z, NC, C.
pub open spec fn map_cond(k: int) -> Flag {
    if k == 0 {
        Flag::FlagNZ
    } else if k == 1 {
        Flag::FlagZ
    } else if k == 2 {
        Flag::FlagNC
    } else {
        Flag::FlagC
    }
}

/// The regular blocks of the opcode map, with `k` the value of bits 3-5
/// and `j` that of bits 0-2: 0x40-0x7F load operand `j` into operand `k`
/// (0x76, which would load (HL) into itself, is HALT); 0x80-0xBF apply ALU
/// operation `k` to A and operand `j`, and 0xC6, 0xCE, ..., 0xFE apply it
/// to an immediate byte; below 0x40, `j` = 4, 5 and 6 are INC, DEC and an
/// immediate load of operand `k`; JR, RET, JP and CALL with a condition
/// take it from bits 3-4; 0xC7, 0xCF, ..., 0xFF are RST to 8 * `k`.
pub proof fn law_opcode_map(opcode: u8)
    ensures
        ({
            let k: int = (opcode / 8) as int % 8;
            let j: int = opcode as int % 8;
            let i = instr_table(opcode);
            &&& 0x40 <= opcode < 0x80 && opcode != 0x76 ==> i == Instr::Ld8(map_dst(k), map_src(j))
            &&& opcode == 0x76 ==> i == Instr::Halt
            &&& 0x80 <= opcode < 0xC0 ==> i == map_alu(k, map_src(j))
            &&& 0xC0 <= opcode && j == 6 ==> i == map_alu(k, Src8::Imm)
            &&& opcode < 0x40 && j == 4 ==> i == Instr::Inc8(map_rmw(k))
            &&& opcode < 0x40 && j == 5 ==> i == Instr::Dec8(map_rmw(k))
            &&& opcode < 0x40 && j == 6 ==> i == Instr::Ld8(map_dst(k), Src8::Imm)
            &&& 0x20 <= opcode < 0x40 && j == 0 ==> i == Instr::Jr(Some(map_cond(k - 4)))
            &&& 0xC0 <= opcode < 0xE0 && j == 0 ==> i == Instr::Ret(Some(map_cond(k)))
            &&& 0xC0 <= opcode < 0xE0 && j == 2 ==> i == Instr::Jp(Some(map_cond(k)))
            &&& 0xC0 <= opcode < 0xE0 && j == 4 ==> i == Instr::Call(Some(map_cond(k)))
            &&& 0xC0 <= opcode && j == 7 ==> i == Instr::Rst((8 * k) as u8)
        }),
{
}

/// DI turns the interrupt master enable off and EI turns it on, RETI
/// turns it on as it returns, and NOP does nothing; DI, EI and NOP take no
/// M-cycle beyond their fetch and change no register.
pub proof fn law_interrupt_enable(c: CPU, b: BusView)
    ensures
        Instr::Di.run_spec(c, b).1.ime == 0 && Instr::Di.run_spec(c, b).0 == c,
        Instr::Ei.run_spec(c, b).1.ime == 1 && Instr::Ei.run_spec(c, b).0 == c,
        Instr::Di.run_spec(c, b).1.mclock == b.mclock && Instr::Ei.run_spec(c, b).1.mclock
            == b.mclock,
        Instr::Reti.run_spec(c, b).1.ime == 1,
        Instr::Nop.run_spec(c, b) == (c, b),
{
    let (c1, b1, address) = c.pop_spec(BusView { ime: 1, ..b });
    reveal(BusView::cycle);
}

/// The register pair bits 4-5 of an opcode name: BC, DE, HL, then SP for
/// loads and arithmetic or AF for PUSH and POP.
pub open spec fn map_pair(k: int, stack: bool) -> Reg16 {
    if k == 0 {
        Reg16::BC
    } else if k == 1 {
        Reg16::DE
    } else if k == 2 {
        Reg16::HL
    } else if stack {
        Reg16::AF
    } else {
        Reg16::SP
    }
}

/// The register-pair columns of the opcode map, with `p` the value of bits
/// 4-5: below 0x40, low nibble 1 loads pair `p` with an immediate word, 3
/// increments it, 9 adds it to HL and B decrements it; from 0xC0 on, low
/// nibble 1 pops pair `p` and 5 pushes it (with AF in place of SP).
pub proof fn law_opcode_map_pairs(opcode: u8)
    ensures
        ({
            let p: int = (opcode / 16) as int % 4;
            let low: int = opcode as int % 16;
            let i = instr_table(opcode);
            &&& opcode < 0x40 && low == 1 ==> i == Instr::Ld16(Dst16::Reg(map_pair(p, false)), Src16::Imm)
            &&& opcode < 0x40 && low == 3 ==> i == Instr::Inc16(map_pair(p, false))
            &&& opcode < 0x40 && low == 9 ==> i == Instr::AddHl(map_pair(p, false))
            &&& opcode < 0x40 && low == 11 ==> i == Instr::Dec16(map_pair(p, false))
            &&& opcode >= 0xC0 && low == 1 ==> i == Instr::Pop(map_pair(p, true))
            &&& opcode >= 0xC0 && low == 5 ==> i == Instr::Push(map_pair(p, true))
        }),
{
}

/// The table's operand lengths are the lengths of its instructions.
pub proof fn law_table_length(opcode: u8)
    ensures
        1 <= instr_table(opcode).spec_length() <= 3,
        !instr_table(opcode).is_control_flow() ==> ({
            let i = instr_table(opcode);
            forall|c: CPU, b: BusView|
                #[trigger] i.run_spec(c, b).0.registers.pc == wrap16(
                    c.registers.pc + i.spec_length() - 1,
                )
        }),
{
    lemma_length_bound(opcode);
    let i = instr_table(opcode);
    if !i.is_control_flow() {
        assert forall|c: CPU, b: BusView|
            #[trigger] i.run_spec(c, b).0.registers.pc == wrap16(
                c.registers.pc + i.spec_length() - 1,
            ) by {
            law_length_pc(i, c, b);
        }
    }
}

} // verus!
