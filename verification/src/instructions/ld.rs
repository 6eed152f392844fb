//! Load/Store instructions

use crate::bus::{Bus, BusView};
use crate::cpu::{advanced, CPU};
use crate::operand::{Dst16, Dst8, Reg16, Reg8, Src16, Src8};
use crate::registers::{lemma_word_masks, sign_extend, sign_extend_byte, wrap16, RegisterState};
use vstd::prelude::*;

verus! {

/// LD dst, src (8-bit): read, then write.
pub open spec fn ld8_spec(dst: Dst8, src: Src8, c: CPU, b: BusView) -> (CPU, BusView) {
    let (c1, b1, v) = src.read_spec(c, b);
    dst.write_spec(c1, b1, v)
}

/// The write of an 8-bit load is one the bus can take.
pub open spec fn ld8_ok(dst: Dst8, src: Src8, c: CPU, b: BusView) -> bool {
    let (c1, b1, v) = src.read_spec(c, b);
    dst.write_ok(c1, b1, v)
}

/// LD dst, src (16-bit): read, then write.
pub open spec fn ld16_spec(dst: Dst16, src: Src16, c: CPU, b: BusView) -> (CPU, BusView) {
    let (c1, b1, v) = src.read_spec(c, b);
    dst.write_spec(c1, b1, v)
}

/// The writes of a 16-bit load are ones the bus can take.
pub open spec fn ld16_ok(dst: Dst16, src: Src16, c: CPU, b: BusView) -> bool {
    let (c1, b1, v) = src.read_spec(c, b);
    dst.write_ok(c1, b1, v)
}

/// The CPU with HL moved by `delta` (wrapping).
pub open spec fn hl_moved(c: CPU, delta: int) -> CPU {
    c.with_regs(c.registers.with_r16(Reg16::HL, wrap16(c.registers.r16(Reg16::HL) + delta)))
}

/// LD with HL incremented afterwards.
pub open spec fn ld_inc_spec(dst: Dst8, src: Src8, c: CPU, b: BusView) -> (CPU, BusView) {
    let (c1, b1) = ld8_spec(dst, src, c, b);
    (hl_moved(c1, 1), b1)
}

/// LD with HL decremented afterwards.
pub open spec fn ld_dec_spec(dst: Dst8, src: Src8, c: CPU, b: BusView) -> (CPU, BusView) {
    let (c1, b1) = ld8_spec(dst, src, c, b);
    (hl_moved(c1, -1), b1)
}

/// A register-to-register load copies the source into the destination
/// (F keeps only its upper nibble) and changes no other register, no flag
/// and nothing on the bus. LD with HL+ or HL- is the same load followed by
/// HL moving one up or down (modulo 2^16), with nothing else different.
pub proof fn law_loads(d: Reg8, s: Reg8, dst: Dst8, src: Src8, c: CPU, b: BusView, other: Reg8)
    ensures
        ({
            let (c1, b1) = ld8_spec(Dst8::Reg(d), Src8::Reg(s), c, b);
            &&& c1.registers.r8(d) == if d is F {
                c.registers.r8(s) & 0xF0
            } else {
                c.registers.r8(s)
            }
            &&& other != d ==> c1.registers.r8(other) == c.registers.r8(other)
            &&& c1.registers.pc == c.registers.pc && c1.registers.sp == c.registers.sp
            &&& b1 == b
        }),
        ({
            let (c1, b1) = ld8_spec(dst, src, c, b);
            let (ci, bi) = ld_inc_spec(dst, src, c, b);
            let (cd, bd) = ld_dec_spec(dst, src, c, b);
            let hl = c1.registers.r16(Reg16::HL);
            &&& bi == b1 && bd == b1
            &&& ci.registers.r16(Reg16::HL) == (hl + 1) % 65536
            &&& cd.registers.r16(Reg16::HL) == (hl + 65535) % 65536
            &&& ci.registers == RegisterState { h: ci.registers.h, l: ci.registers.l, ..c1.registers }
            &&& cd.registers == RegisterState { h: cd.registers.h, l: cd.registers.l, ..c1.registers }
        }),
{
    let (c1, b1) = ld8_spec(dst, src, c, b);
    let hl = c1.registers.r16(Reg16::HL);
    crate::registers::law_r16_read_back(c1.registers, Reg16::HL, wrap16(hl + 1));
    crate::registers::law_r16_read_back(c1.registers, Reg16::HL, wrap16(hl - 1));
    crate::registers::law_r8_read_back(c.registers, d, c.registers.r8(s), other);
}

/// LD SP, HL: one extra M-cycle.
pub open spec fn ld_sp_hl_spec(c: CPU, b: BusView) -> (CPU, BusView) {
    (c.with_sp(c.registers.r16(Reg16::HL)), b.cycle())
}

/// LD HL, SP+e: Z and N clear; H and C from the low byte sum; one extra M-cycle.
pub open spec fn ld_hl_sp_offset_spec(c: CPU, b: BusView) -> (CPU, BusView) {
    let (c1, b1, offset) = c.next_u8_spec(b);
    let sp = c1.registers.sp;
    let regs = c1.registers.with_r16(Reg16::HL, wrap16(sp + sign_extend(offset)));
    (
        c1.with_regs(
            regs.with_znhc(false, false, sp % 16 + offset % 16 > 15, sp % 256 + offset > 255),
        ),
        b1.cycle(),
    )
}

/// 8-bit load: LD dst, src
pub fn ld8(dst: Dst8, src: Src8, cpu: &mut CPU, bus: &mut Bus)
    requires
        old(bus).wf(),
        old(bus)@.room(166),
        ld8_ok(dst, src, *old(cpu), old(bus)@),
    ensures
        final(bus).wf(),
        (*final(cpu), final(bus)@) == ld8_spec(dst, src, *old(cpu), old(bus)@),
        advanced(old(bus)@, final(bus)@, 166),
{
    let value = src.read(cpu, bus);
    dst.write(cpu, bus, value);
}

/// 16-bit load: LD dst, src
pub fn ld16(dst: Dst16, src: Src16, cpu: &mut CPU, bus: &mut Bus)
    requires
        old(bus).wf(),
        old(bus)@.room(326),
        ld16_ok(dst, src, *old(cpu), old(bus)@),
    ensures
        final(bus).wf(),
        (*final(cpu), final(bus)@) == ld16_spec(dst, src, *old(cpu), old(bus)@),
        advanced(old(bus)@, final(bus)@, 326),
{
    let value = src.read(cpu, bus);
    dst.write(cpu, bus, value);
}

/// LD [HL+], A or LD A, [HL+] - load with HL increment
pub fn ld_inc(dst: Dst8, src: Src8, cpu: &mut CPU, bus: &mut Bus)
    requires
        old(bus).wf(),
        old(bus)@.room(166),
        ld8_ok(dst, src, *old(cpu), old(bus)@),
    ensures
        final(bus).wf(),
        (*final(cpu), final(bus)@) == ld_inc_spec(dst, src, *old(cpu), old(bus)@),
        advanced(old(bus)@, final(bus)@, 166),
{
    let value = src.read(cpu, bus);
    dst.write(cpu, bus, value);
    cpu.registers.inc_r16(Reg16::HL);
}

/// LD [HL-], A or LD A, [HL-] - load with HL decrement
pub fn ld_dec(dst: Dst8, src: Src8, cpu: &mut CPU, bus: &mut Bus)
    requires
        old(bus).wf(),
        old(bus)@.room(166),
        ld8_ok(dst, src, *old(cpu), old(bus)@),
    ensures
        final(bus).wf(),
        (*final(cpu), final(bus)@) == ld_dec_spec(dst, src, *old(cpu), old(bus)@),
        advanced(old(bus)@, final(bus)@, 166),
{
    let value = src.read(cpu, bus);
    dst.write(cpu, bus, value);
    cpu.registers.dec_r16(Reg16::HL);
}

/// LD SP, HL
pub fn ld_sp_hl(cpu: &mut CPU, bus: &mut Bus)
    requires
        old(bus).wf(),
        old(bus)@.room(1),
    ensures
        final(bus).wf(),
        (*final(cpu), final(bus)@) == ld_sp_hl_spec(*old(cpu), old(bus)@),
        advanced(old(bus)@, final(bus)@, 1),
{
    cpu.registers.sp = cpu.registers.get_r16(Reg16::HL);
    bus.generic_cycle();
}

/// LD HL, SP+e (signed offset)
#[verifier::spinoff_prover]
#[verifier::rlimit(50)]
pub fn ld_hl_sp_offset(cpu: &mut CPU, bus: &mut Bus)
    requires
        old(bus).wf(),
        old(bus)@.room(2),
    ensures
        final(bus).wf(),
        (*final(cpu), final(bus)@) == ld_hl_sp_offset_spec(*old(cpu), old(bus)@),
        advanced(old(bus)@, final(bus)@, 2),
{
    let offset = cpu.next_u8(bus);
    let sp = cpu.registers.sp;
    let offset_u16 = sign_extend_byte(offset);
    let result = sp.wrapping_add(offset_u16);
    proof {
        lemma_word_masks(sp);
        lemma_word_masks(offset_u16);
    }
    // Flags are set based on lower byte addition
    let half_carry = (sp & 0x0F) + (offset_u16 & 0x0F) > 0x0F;
    let carry = (sp & 0xFF) + (offset_u16 & 0xFF) > 0xFF;
    cpu.registers.set_r16(Reg16::HL, result);
    bus.generic_cycle();
    cpu.registers.set_zf(false);
    cpu.registers.set_nf(false);
    cpu.registers.set_hf(half_carry);
    cpu.registers.set_cf(carry);
}

} // verus!
