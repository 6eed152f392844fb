//! ALU (Arithmetic Logic Unit) instructions

use crate::bus::{Bus, BusView};
use crate::cpu::{advanced, CPU};
use crate::operand::{Reg16, Reg8, RmwOperand8, Src8};
use crate::registers::{
    lemma_low_nibble, lemma_update_flag, lemma_word_masks, sign_extend, sign_extend_byte,
    update_bit, law_set_znhc, set_znhc, wrap16, wrap8, RegisterState, CF_MASK, HF_MASK, NF_MASK,
    ZF_MASK,
};
use vstd::prelude::*;

verus! {

/// 1 if the carry flag is set, else 0.
pub open spec fn carry_in(r: RegisterState) -> int {
    if r.cf() {
        1
    } else {
        0
    }
}

/// A with the new value `a` and flags Z, N, H, C.
pub open spec fn set_a_znhc(c: CPU, a: u8, z: bool, n: bool, h: bool, cy: bool) -> CPU {
    c.with_regs(RegisterState { a, ..c.registers }.with_znhc(z, n, h, cy))
}

// ============================================================================
// 8-bit ALU operations (operate on A register)
// ============================================================================

/// ADD A, src: A + v; Z if zero, H on carry out of bit 3, C on carry out of bit 7.
pub open spec fn add_spec(src: Src8, c: CPU, b: BusView) -> (CPU, BusView) {
    let (c1, b1, v) = src.read_spec(c, b);
    let a = c1.registers.a;
    let r = wrap8(a + v);
    (set_a_znhc(c1, r, r == 0, false, a % 16 + v % 16 > 15, a + v > 255), b1)
}

/// ADC A, src: A + v + carry.
pub open spec fn adc_spec(src: Src8, c: CPU, b: BusView) -> (CPU, BusView) {
    let (c1, b1, v) = src.read_spec(c, b);
    let a = c1.registers.a;
    let cin = carry_in(c1.registers);
    let r = wrap8(a + v + cin);
    (set_a_znhc(c1, r, r == 0, false, a % 16 + v % 16 + cin > 15, a + v + cin > 255), b1)
}

/// SUB A, src: A - v; H on borrow from bit 4, C on borrow.
pub open spec fn sub_spec(src: Src8, c: CPU, b: BusView) -> (CPU, BusView) {
    let (c1, b1, v) = src.read_spec(c, b);
    let a = c1.registers.a;
    let r = wrap8(a - v);
    (set_a_znhc(c1, r, r == 0, true, a % 16 < v % 16, a < v), b1)
}

/// SBC A, src: A - v - carry.
pub open spec fn sbc_spec(src: Src8, c: CPU, b: BusView) -> (CPU, BusView) {
    let (c1, b1, v) = src.read_spec(c, b);
    let a = c1.registers.a;
    let cin = carry_in(c1.registers);
    let r = wrap8(a - v - cin);
    (set_a_znhc(c1, r, r == 0, true, a % 16 < v % 16 + cin, a < v + cin), b1)
}

/// AND A, src: H always set, N and C clear.
pub open spec fn and_spec(src: Src8, c: CPU, b: BusView) -> (CPU, BusView) {
    let (c1, b1, v) = src.read_spec(c, b);
    let r = c1.registers.a & v;
    (set_a_znhc(c1, r, r == 0, false, true, false), b1)
}

/// XOR A, src: only Z can be set.
pub open spec fn xor_spec(src: Src8, c: CPU, b: BusView) -> (CPU, BusView) {
    let (c1, b1, v) = src.read_spec(c, b);
    let r = c1.registers.a ^ v;
    (set_a_znhc(c1, r, r == 0, false, false, false), b1)
}

/// OR A, src: only Z can be set.
pub open spec fn or_spec(src: Src8, c: CPU, b: BusView) -> (CPU, BusView) {
    let (c1, b1, v) = src.read_spec(c, b);
    let r = c1.registers.a | v;
    (set_a_znhc(c1, r, r == 0, false, false, false), b1)
}

/// CP A, src: the flags of SUB, A unchanged.
pub open spec fn cp_spec(src: Src8, c: CPU, b: BusView) -> (CPU, BusView) {
    let (c1, b1, v) = src.read_spec(c, b);
    let a = c1.registers.a;
    (c1.with_regs(c1.registers.with_znhc(a == v, true, a % 16 < v % 16, a < v)), b1)
}

/// INC: operand + 1; Z, N clear, H on carry out of bit 3; C kept.
pub open spec fn inc8_parts(op: RmwOperand8, c: CPU, b: BusView) -> (CPU, BusView, u8) {
    let (b1, v) = op.read_spec(c, b);
    let r = wrap8(v + 1);
    (c.with_regs(c.registers.with_znh(r == 0, false, v % 16 == 15)), b1, r)
}

pub open spec fn inc8_spec(op: RmwOperand8, c: CPU, b: BusView) -> (CPU, BusView) {
    let (c1, b1, r) = inc8_parts(op, c, b);
    op.write_spec(c1, b1, r)
}

pub open spec fn inc8_ok(op: RmwOperand8, c: CPU, b: BusView) -> bool {
    let (c1, b1, r) = inc8_parts(op, c, b);
    op.write_ok(c1, b1, r)
}

/// DEC: operand - 1; Z, N set, H on borrow from bit 4; C kept.
pub open spec fn dec8_parts(op: RmwOperand8, c: CPU, b: BusView) -> (CPU, BusView, u8) {
    let (b1, v) = op.read_spec(c, b);
    let r = wrap8(v - 1);
    (c.with_regs(c.registers.with_znh(r == 0, true, v % 16 == 0)), b1, r)
}

pub open spec fn dec8_spec(op: RmwOperand8, c: CPU, b: BusView) -> (CPU, BusView) {
    let (c1, b1, r) = dec8_parts(op, c, b);
    op.write_spec(c1, b1, r)
}

pub open spec fn dec8_ok(op: RmwOperand8, c: CPU, b: BusView) -> bool {
    let (c1, b1, r) = dec8_parts(op, c, b);
    op.write_ok(c1, b1, r)
}

/// INC rr: the pair + 1 (wrapping), one extra M-cycle, flags kept.
pub open spec fn inc16_spec(r: Reg16, c: CPU, b: BusView) -> (CPU, BusView) {
    (c.with_regs(c.registers.with_r16(r, wrap16(c.registers.r16(r) + 1))), b.cycle())
}

/// DEC rr: the pair - 1 (wrapping), one extra M-cycle, flags kept.
pub open spec fn dec16_spec(r: Reg16, c: CPU, b: BusView) -> (CPU, BusView) {
    (c.with_regs(c.registers.with_r16(r, wrap16(c.registers.r16(r) - 1))), b.cycle())
}

/// ADD HL, rr: Z kept, N clear, H on carry out of bit 11, C on carry out of bit 15.
pub open spec fn add_hl_spec(r: Reg16, c: CPU, b: BusView) -> (CPU, BusView) {
    let hl = c.registers.r16(Reg16::HL);
    let v = c.registers.r16(r);
    let regs = c.registers.with_r16(Reg16::HL, wrap16(hl + v));
    (c.with_regs(regs.with_nhc(false, hl % 4096 + v % 4096 > 4095, hl + v > 65535)), b.cycle())
}

/// ADD SP, e: signed offset; Z, N clear; H and C from the low byte sum; two extra M-cycles.
pub open spec fn add_sp_spec(c: CPU, b: BusView) -> (CPU, BusView) {
    let (c1, b1, offset) = c.next_u8_spec(b);
    let sp = c1.registers.sp;
    let regs = RegisterState { sp: wrap16(sp + sign_extend(offset)), ..c1.registers };
    (
        c1.with_regs(
            regs.with_znhc(false, false, sp % 16 + offset % 16 > 15, sp % 256 + offset > 255),
        ),
        b1.cycle().cycle(),
    )
}

// ============================================================================
// Rotate operations on A (fast versions that don't set zero flag)
// ============================================================================

/// RLCA: rotate A left; bit 7 goes to C and bit 0.
pub open spec fn rlca_spec(c: CPU) -> CPU {
    let a = c.registers.a;
    let carry = a & 0x80 != 0;
    set_a_znhc(c, (a << 1u8) | (if carry { 1u8 } else { 0u8 }), false, false, false, carry)
}

/// RRCA: rotate A right; bit 0 goes to C and bit 7.
pub open spec fn rrca_spec(c: CPU) -> CPU {
    let a = c.registers.a;
    let carry = a & 0x01 != 0;
    set_a_znhc(c, (a >> 1u8) | (if carry { 0x80u8 } else { 0u8 }), false, false, false, carry)
}

/// RLA: rotate A left through C.
pub open spec fn rla_spec(c: CPU) -> CPU {
    let a = c.registers.a;
    set_a_znhc(
        c,
        (a << 1u8) | (if c.registers.cf() { 1u8 } else { 0u8 }),
        false,
        false,
        false,
        a & 0x80 != 0,
    )
}

/// RRA: rotate A right through C.
pub open spec fn rra_spec(c: CPU) -> CPU {
    let a = c.registers.a;
    set_a_znhc(
        c,
        (a >> 1u8) | (if c.registers.cf() { 0x80u8 } else { 0u8 }),
        false,
        false,
        false,
        a & 0x01 != 0,
    )
}

// ============================================================================
// Misc ALU operations
// ============================================================================

/// Decimal adjust of `value` after a BCD addition or subtraction, as N, H
/// and C say: the adjusted value and the registers with C (possibly set),
/// Z and H (cleared) updated.
pub open spec fn bcd_adjust_spec(r: RegisterState, value: u8) -> (RegisterState, u8) {
    if !r.nf() {
        let big = r.cf() || value > 0x99;
        let v1 = if big {
            wrap8(value + 0x60)
        } else {
            value
        };
        let r1 = if big {
            r.with_f(update_bit(r.f, CF_MASK, true))
        } else {
            r
        };
        let v2 = if r1.hf() || v1 % 16 > 9 {
            wrap8(v1 + 0x06)
        } else {
            v1
        };
        (r1.with_f(update_bit(update_bit(r1.f, ZF_MASK, v2 == 0), HF_MASK, false)), v2)
    } else {
        let v1 = if r.cf() {
            wrap8(value - 0x60)
        } else {
            value
        };
        let v2 = if r.hf() {
            wrap8(v1 - 0x06)
        } else {
            v1
        };
        (r.with_f(update_bit(update_bit(r.f, ZF_MASK, v2 == 0), HF_MASK, false)), v2)
    }
}

/// DAA: decimal adjust A.
pub open spec fn daa_spec(c: CPU) -> CPU {
    let (r, v) = bcd_adjust_spec(c.registers, c.registers.a);
    c.with_regs(RegisterState { a: v, ..r })
}

/// CPL: A = NOT A; N and H set.
pub open spec fn cpl_spec(c: CPU) -> CPU {
    c.with_regs(RegisterState { a: !c.registers.a, ..c.registers }.with_nh(true, true))
}

/// SCF: C set, N and H clear.
pub open spec fn scf_spec(c: CPU) -> CPU {
    c.with_regs(c.registers.with_nhc(false, false, true))
}

/// CCF: C complemented, N and H clear.
pub open spec fn ccf_spec(c: CPU) -> CPU {
    c.with_regs(c.registers.with_nhc(false, false, !c.registers.cf()))
}

proof fn lemma_sub_half(a: u8, v: u8, cin: u8)
    requires
        cin <= 1,
    ensures
        ((a & 0x0F).wrapping_sub(v & 0x0F) & 0x10 != 0) == (a % 16 < v % 16),
        ((a & 0x0F).wrapping_sub(v & 0x0F).wrapping_sub(cin) & 0x10 != 0) == (a % 16 < v % 16
            + cin),
{
    lemma_low_nibble(a);
    lemma_low_nibble(v);
    let x = a & 0x0F;
    let y = v & 0x0F;
    let d = x.wrapping_sub(y);
    assert(d == (if x >= y { (x - y) as u8 } else { (x - y + 256) as u8 }));
    assert((d & 0x10 != 0) == (x < y)) by (bit_vector)
        requires
            x < 16,
            y < 16,
            d == (if x >= y { (x - y) as u8 } else { (x - y + 256) as u8 }),
    ;
    let e = d.wrapping_sub(cin);
    assert(e == (if d >= cin { (d - cin) as u8 } else { (d - cin + 256) as u8 }));
    assert((e & 0x10 != 0) == (x < y + cin)) by (bit_vector)
        requires
            x < 16,
            y < 16,
            cin <= 1,
            d == (if x >= y { (x - y) as u8 } else { (x - y + 256) as u8 }),
            e == (if d >= cin { (d - cin) as u8 } else { (d - cin + 256) as u8 }),
    ;
}

#[verifier::spinoff_prover]
#[verifier::rlimit(50)]
pub fn add(src: Src8, cpu: &mut CPU, bus: &mut Bus)
    requires
        old(bus).wf(),
        old(bus)@.room(3),
    ensures
        final(bus).wf(),
        (*final(cpu), final(bus)@) == add_spec(src, *old(cpu), old(bus)@),
        advanced(old(bus)@, final(bus)@, 3),
{
    let value = src.read(cpu, bus);
    let a = cpu.registers.a;
    let result = a.wrapping_add(value);
    let carry = (a as u16) + (value as u16) > 0xFF;
    proof {
        lemma_low_nibble(a);
        lemma_low_nibble(value);
    }
    let half_carry = (a & 0x0F) + (value & 0x0F) > 0x0F;
    cpu.registers.a = result;
    cpu.registers.set_zf(result == 0);
    cpu.registers.set_nf(false);
    cpu.registers.set_hf(half_carry);
    cpu.registers.set_cf(carry);
}

#[verifier::spinoff_prover]
#[verifier::rlimit(50)]
pub fn adc(src: Src8, cpu: &mut CPU, bus: &mut Bus)
    requires
        old(bus).wf(),
        old(bus)@.room(3),
    ensures
        final(bus).wf(),
        (*final(cpu), final(bus)@) == adc_spec(src, *old(cpu), old(bus)@),
        advanced(old(bus)@, final(bus)@, 3),
{
    let value = src.read(cpu, bus);
    let a = cpu.registers.a;
    let carry_in: u8 = if cpu.registers.flg_c() { 1 } else { 0 };
    let result = a.wrapping_add(value).wrapping_add(carry_in);
    proof {
        lemma_low_nibble(a);
        lemma_low_nibble(value);
    }
    let half_carry = (a & 0x0F) + (value & 0x0F) + carry_in > 0x0F;
    let carry = (a as u16) + (value as u16) + (carry_in as u16) > 0xFF;
    cpu.registers.a = result;
    cpu.registers.set_zf(result == 0);
    cpu.registers.set_nf(false);
    cpu.registers.set_hf(half_carry);
    cpu.registers.set_cf(carry);
}

#[verifier::spinoff_prover]
#[verifier::rlimit(50)]
pub fn sub(src: Src8, cpu: &mut CPU, bus: &mut Bus)
    requires
        old(bus).wf(),
        old(bus)@.room(3),
    ensures
        final(bus).wf(),
        (*final(cpu), final(bus)@) == sub_spec(src, *old(cpu), old(bus)@),
        advanced(old(bus)@, final(bus)@, 3),
{
    let value = src.read(cpu, bus);
    let a = cpu.registers.a;
    let result = a.wrapping_sub(value);
    proof {
        lemma_sub_half(a, value, 0);
    }
    cpu.registers.a = result;
    cpu.registers.set_zf(result == 0);
    cpu.registers.set_nf(true);
    cpu.registers.set_hf((a & 0x0F).wrapping_sub(value & 0x0F) & 0x10 != 0);
    cpu.registers.set_cf(a < value);
}

#[verifier::spinoff_prover]
#[verifier::rlimit(50)]
pub fn sbc(src: Src8, cpu: &mut CPU, bus: &mut Bus)
    requires
        old(bus).wf(),
        old(bus)@.room(3),
    ensures
        final(bus).wf(),
        (*final(cpu), final(bus)@) == sbc_spec(src, *old(cpu), old(bus)@),
        advanced(old(bus)@, final(bus)@, 3),
{
    let value = src.read(cpu, bus);
    let a = cpu.registers.a;
    let carry_in: u8 = if cpu.registers.flg_c() { 1 } else { 0 };
    let result = a.wrapping_sub(value).wrapping_sub(carry_in);
    proof {
        lemma_sub_half(a, value, carry_in);
    }
    let half_carry = (a & 0x0F).wrapping_sub(value & 0x0F).wrapping_sub(carry_in) & 0x10 != 0;
    let carry = (a as u16) < (value as u16) + (carry_in as u16);
    cpu.registers.a = result;
    cpu.registers.set_zf(result == 0);
    cpu.registers.set_nf(true);
    cpu.registers.set_hf(half_carry);
    cpu.registers.set_cf(carry);
}

pub fn and(src: Src8, cpu: &mut CPU, bus: &mut Bus)
    requires
        old(bus).wf(),
        old(bus)@.room(3),
    ensures
        final(bus).wf(),
        (*final(cpu), final(bus)@) == and_spec(src, *old(cpu), old(bus)@),
        advanced(old(bus)@, final(bus)@, 3),
{
    let value = src.read(cpu, bus);
    cpu.registers.a = cpu.registers.a & value;
    cpu.registers.set_zf(cpu.registers.a == 0);
    cpu.registers.set_nf(false);
    cpu.registers.set_hf(true);
    cpu.registers.set_cf(false);
}

pub fn xor(src: Src8, cpu: &mut CPU, bus: &mut Bus)
    requires
        old(bus).wf(),
        old(bus)@.room(3),
    ensures
        final(bus).wf(),
        (*final(cpu), final(bus)@) == xor_spec(src, *old(cpu), old(bus)@),
        advanced(old(bus)@, final(bus)@, 3),
{
    let value = src.read(cpu, bus);
    cpu.registers.a = cpu.registers.a ^ value;
    cpu.registers.set_zf(cpu.registers.a == 0);
    cpu.registers.set_nf(false);
    cpu.registers.set_hf(false);
    cpu.registers.set_cf(false);
}

pub fn or(src: Src8, cpu: &mut CPU, bus: &mut Bus)
    requires
        old(bus).wf(),
        old(bus)@.room(3),
    ensures
        final(bus).wf(),
        (*final(cpu), final(bus)@) == or_spec(src, *old(cpu), old(bus)@),
        advanced(old(bus)@, final(bus)@, 3),
{
    let value = src.read(cpu, bus);
    cpu.registers.a = cpu.registers.a | value;
    cpu.registers.set_zf(cpu.registers.a == 0);
    cpu.registers.set_nf(false);
    cpu.registers.set_hf(false);
    cpu.registers.set_cf(false);
}

pub fn cp(src: Src8, cpu: &mut CPU, bus: &mut Bus)
    requires
        old(bus).wf(),
        old(bus)@.room(3),
    ensures
        final(bus).wf(),
        (*final(cpu), final(bus)@) == cp_spec(src, *old(cpu), old(bus)@),
        advanced(old(bus)@, final(bus)@, 3),
{
    let value = src.read(cpu, bus);
    let a = cpu.registers.a;
    proof {
        lemma_sub_half(a, value, 0);
    }
    // CP is SUB without storing result
    cpu.registers.set_zf(a == value);
    cpu.registers.set_nf(true);
    cpu.registers.set_hf((a & 0x0F).wrapping_sub(value & 0x0F) & 0x10 != 0);
    cpu.registers.set_cf(a < value);
}

// ============================================================================
// 8-bit INC/DEC
// ============================================================================

pub fn inc8(op: RmwOperand8, cpu: &mut CPU, bus: &mut Bus)
    requires
        old(bus).wf(),
        old(bus)@.room(162),
        inc8_ok(op, *old(cpu), old(bus)@),
    ensures
        final(bus).wf(),
        (*final(cpu), final(bus)@) == inc8_spec(op, *old(cpu), old(bus)@),
        advanced(old(bus)@, final(bus)@, 162),
{
    let value = op.read(cpu, bus);
    let result = value.wrapping_add(1);
    proof {
        lemma_low_nibble(value);
    }
    cpu.registers.set_zf(result == 0);
    cpu.registers.set_nf(false);
    cpu.registers.set_hf((value & 0x0F) == 0x0F);
    // Carry not affected
    op.write(cpu, bus, result);
}

pub fn dec8(op: RmwOperand8, cpu: &mut CPU, bus: &mut Bus)
    requires
        old(bus).wf(),
        old(bus)@.room(162),
        dec8_ok(op, *old(cpu), old(bus)@),
    ensures
        final(bus).wf(),
        (*final(cpu), final(bus)@) == dec8_spec(op, *old(cpu), old(bus)@),
        advanced(old(bus)@, final(bus)@, 162),
{
    let value = op.read(cpu, bus);
    let result = value.wrapping_sub(1);
    proof {
        lemma_low_nibble(value);
    }
    cpu.registers.set_zf(result == 0);
    cpu.registers.set_nf(true);
    // the low nibble was zero: at least four trailing zero bits
    cpu.registers.set_hf((value & 0x0F) == 0);
    // Carry not affected
    op.write(cpu, bus, result);
}

// ============================================================================
// 16-bit INC/DEC
// ============================================================================

pub fn inc16(r: Reg16, cpu: &mut CPU, bus: &mut Bus)
    requires
        old(bus).wf(),
        old(bus)@.room(1),
    ensures
        final(bus).wf(),
        (*final(cpu), final(bus)@) == inc16_spec(r, *old(cpu), old(bus)@),
        advanced(old(bus)@, final(bus)@, 1),
{
    cpu.registers.inc_r16(r);
    bus.generic_cycle();  // 16-bit inc takes extra cycle
}

pub fn dec16(r: Reg16, cpu: &mut CPU, bus: &mut Bus)
    requires
        old(bus).wf(),
        old(bus)@.room(1),
    ensures
        final(bus).wf(),
        (*final(cpu), final(bus)@) == dec16_spec(r, *old(cpu), old(bus)@),
        advanced(old(bus)@, final(bus)@, 1),
{
    cpu.registers.dec_r16(r);
    bus.generic_cycle();  // 16-bit dec takes extra cycle
}

// ============================================================================
// 16-bit ADD
// ============================================================================

#[verifier::spinoff_prover]
#[verifier::rlimit(50)]
pub fn add_hl(r: Reg16, cpu: &mut CPU, bus: &mut Bus)
    requires
        old(bus).wf(),
        old(bus)@.room(1),
    ensures
        final(bus).wf(),
        (*final(cpu), final(bus)@) == add_hl_spec(r, *old(cpu), old(bus)@),
        advanced(old(bus)@, final(bus)@, 1),
{
    let hl = cpu.registers.get_r16(Reg16::HL);
    let value = cpu.registers.get_r16(r);
    let result = hl.wrapping_add(value);
    let carry = (hl as u32) + (value as u32) > 0xFFFF;
    proof {
        lemma_word_masks(hl);
        lemma_word_masks(value);
    }
    let half_carry = (hl & 0x0FFF) + (value & 0x0FFF) > 0x0FFF;
    cpu.registers.set_r16(Reg16::HL, result);
    cpu.registers.set_nf(false);
    cpu.registers.set_hf(half_carry);
    cpu.registers.set_cf(carry);
    // Zero flag not affected
    bus.generic_cycle();
}

#[verifier::spinoff_prover]
#[verifier::rlimit(50)]
pub fn add_sp(cpu: &mut CPU, bus: &mut Bus)
    requires
        old(bus).wf(),
        old(bus)@.room(3),
    ensures
        final(bus).wf(),
        (*final(cpu), final(bus)@) == add_sp_spec(*old(cpu), old(bus)@),
        advanced(old(bus)@, final(bus)@, 3),
{
    let offset = cpu.next_u8(bus);
    let sp = cpu.registers.sp;
    let offset_u16 = sign_extend_byte(offset);
    let result = sp.wrapping_add(offset_u16);
    proof {
        lemma_word_masks(sp);
        lemma_word_masks(offset_u16);
    }
    // Flags are set based on lower byte addition
    let half_carry = (sp & 0x0F) + (offset_u16 & 0x0F) > 0x0F;
    let carry = (sp & 0xFF) + (offset_u16 & 0xFF) > 0xFF;
    cpu.registers.sp = result;
    cpu.registers.set_zf(false);
    cpu.registers.set_nf(false);
    cpu.registers.set_hf(half_carry);
    cpu.registers.set_cf(carry);
    bus.generic_cycle();
    bus.generic_cycle();
}

// ============================================================================
// Rotate operations on A (fast versions that don't set zero flag)
// ============================================================================

pub fn rlca(cpu: &mut CPU)
    ensures
        *final(cpu) == rlca_spec(*old(cpu)),
{
    let a = cpu.registers.a;
    let carry = (a & 0x80) != 0;
    cpu.registers.a = (a << 1u8) | (if carry { 1u8 } else { 0u8 });
    cpu.registers.set_zf(false);
    cpu.registers.set_nf(false);
    cpu.registers.set_hf(false);
    cpu.registers.set_cf(carry);
}

pub fn rrca(cpu: &mut CPU)
    ensures
        *final(cpu) == rrca_spec(*old(cpu)),
{
    let a = cpu.registers.a;
    let carry = (a & 0x01) != 0;
    cpu.registers.a = (a >> 1u8) | (if carry { 0x80u8 } else { 0u8 });
    cpu.registers.set_zf(false);
    cpu.registers.set_nf(false);
    cpu.registers.set_hf(false);
    cpu.registers.set_cf(carry);
}

pub fn rla(cpu: &mut CPU)
    ensures
        *final(cpu) == rla_spec(*old(cpu)),
{
    let a = cpu.registers.a;
    let old_carry = cpu.registers.flg_c();
    let new_carry = (a & 0x80) != 0;
    cpu.registers.a = (a << 1u8) | (if old_carry { 1u8 } else { 0u8 });
    cpu.registers.set_zf(false);
    cpu.registers.set_nf(false);
    cpu.registers.set_hf(false);
    cpu.registers.set_cf(new_carry);
}

pub fn rra(cpu: &mut CPU)
    ensures
        *final(cpu) == rra_spec(*old(cpu)),
{
    let a = cpu.registers.a;
    let old_carry = cpu.registers.flg_c();
    let new_carry = (a & 0x01) != 0;
    cpu.registers.a = (a >> 1u8) | (if old_carry { 0x80u8 } else { 0u8 });
    cpu.registers.set_zf(false);
    cpu.registers.set_nf(false);
    cpu.registers.set_hf(false);
    cpu.registers.set_cf(new_carry);
}

// ============================================================================
// Misc ALU operations
// ============================================================================

pub fn daa(cpu: &mut CPU)
    ensures
        *final(cpu) == daa_spec(*old(cpu)),
{
    let a = cpu.registers.a;
    cpu.registers.a = cpu.bcd_adjust(a);
}

pub fn cpl(cpu: &mut CPU)
    ensures
        *final(cpu) == cpl_spec(*old(cpu)),
{
    cpu.registers.a = !cpu.registers.a;
    cpu.registers.set_nf(true);
    cpu.registers.set_hf(true);
}

pub fn scf(cpu: &mut CPU)
    ensures
        *final(cpu) == scf_spec(*old(cpu)),
{
    cpu.registers.set_nf(false);
    cpu.registers.set_hf(false);
    cpu.registers.set_cf(true);
}

pub fn ccf(cpu: &mut CPU)
    ensures
        *final(cpu) == ccf_spec(*old(cpu)),
{
    cpu.registers.set_nf(false);
    cpu.registers.set_hf(false);
    proof {
        let f0 = old(cpu).registers.f;
        assert(update_bit(update_bit(f0, NF_MASK, false), HF_MASK, false) & CF_MASK == f0
            & CF_MASK) by (bit_vector);
    }
    cpu.registers.set_cf(!cpu.registers.flg_c());
}


/// CPL complements A (every bit flips, so A becomes 255 - A), sets N and H,
/// and keeps Z, C and every other register.
pub proof fn law_cpl_result(c: CPU)
    ensures
        cpl_spec(c).registers.a == 255 - c.registers.a,
        cpl_spec(c).registers.f & 0x40 != 0 && cpl_spec(c).registers.f & 0x20 != 0,
        (cpl_spec(c).registers.f & 0x80 != 0) == (c.registers.f & 0x80 != 0),
        (cpl_spec(c).registers.f & 0x10 != 0) == (c.registers.f & 0x10 != 0),
        cpl_spec(c) == (CPU {
            registers: RegisterState {
                a: cpl_spec(c).registers.a,
                f: cpl_spec(c).registers.f,
                ..c.registers
            },
            ..c
        }),
{
    let a = c.registers.a;
    assert(!a == 255 - a) by (bit_vector);
    let f = c.registers.f;
    lemma_update_flag(f, NF_MASK, true);
    lemma_update_flag(update_bit(f, NF_MASK, true), HF_MASK, true);
}

/// CPL twice gives A back; N and H are left set.
pub proof fn law_cpl_twice(c: CPU)
    ensures
        cpl_spec(cpl_spec(c)).registers.a == c.registers.a,
        cpl_spec(cpl_spec(c)).registers.nf(),
        cpl_spec(cpl_spec(c)).registers.hf(),
{
    let a = c.registers.a;
    assert(!(!a) == a) by (bit_vector);
    let f1 = cpl_spec(c).registers.f;
    lemma_update_flag(update_bit(f1, NF_MASK, true), HF_MASK, true);
    lemma_update_flag(f1, NF_MASK, true);
}

/// The flags of F as numbers and booleans: carry as 0 or 1, then Z, N, H.
pub open spec fn carry_bit(r: RegisterState) -> int {
    if r.f & 0x10 != 0 {
        1
    } else {
        0
    }
}

/// Z tells a zero A, N is `n`, and no register but A and F differs from
/// `base`.
pub open spec fn zn_and_rest(x: RegisterState, n: bool, base: RegisterState) -> bool {
    &&& (x.f & 0x80 != 0) == (x.a == 0)
    &&& (x.f & 0x40 != 0) == n
    &&& x == RegisterState { a: x.a, f: x.f, ..base }
}

/// ADD and ADC, with `a` the old A, `v` the operand and `cin` the carry
/// in: the carry holds what the 8-bit result lost, `a + v (+ cin) = A +
/// 256 C`; H is the carry out of the low nibbles; Z tells a zero A; N is
/// clear; no register but A and F changes; the bus is as the operand read
/// left it.
#[verifier::spinoff_prover]
pub proof fn law_add_results(src: Src8, c: CPU, b: BusView)
    ensures
        ({
            let (c1, b1, v) = src.read_spec(c, b);
            let a = c.registers.a;
            let cin = carry_bit(c.registers);
            let add = add_spec(src, c, b).0.registers;
            let adc = adc_spec(src, c, b).0.registers;
            &&& add.a + 256 * carry_bit(add) == a + v
            &&& (add.f & 0x20 != 0) == (a % 16 + v % 16 >= 16)
            &&& adc.a + 256 * carry_bit(adc) == a + v + cin
            &&& (adc.f & 0x20 != 0) == (a % 16 + v % 16 + cin >= 16)
            &&& zn_and_rest(add, false, c1.registers) && zn_and_rest(adc, false, c1.registers)
            &&& add_spec(src, c, b).1 == b1 && adc_spec(src, c, b).1 == b1
        }),
{
    let (c1, b1, v) = src.read_spec(c, b);
    let a = c1.registers.a;
    assert(a == c.registers.a && c1.registers.f == c.registers.f);
    let f = c1.registers.f;
    let cin = carry_in(c1.registers);
    law_set_znhc(f, wrap8(a + v) == 0, false, a % 16 + v % 16 > 15, a + v > 255);
    law_set_znhc(
        f,
        wrap8(a + v + cin) == 0,
        false,
        a % 16 + v % 16 + cin > 15,
        a + v + cin > 255,
    );
}

/// SUB and SBC, with `a` the old A, `v` the operand and `cin` the carry
/// in: the carry is the borrow, `a - v (- cin) = A - 256 C`; H is the
/// borrow from the high nibble; Z tells a zero A; N is set; no register but
/// A and F changes; the bus is as the operand read left it.
#[verifier::spinoff_prover]
pub proof fn law_sub_results(src: Src8, c: CPU, b: BusView)
    ensures
        ({
            let (c1, b1, v) = src.read_spec(c, b);
            let a = c.registers.a;
            let cin = carry_bit(c.registers);
            let sub = sub_spec(src, c, b).0.registers;
            let sbc = sbc_spec(src, c, b).0.registers;
            &&& sub.a - 256 * carry_bit(sub) == a - v
            &&& (sub.f & 0x20 != 0) == (a % 16 < v % 16)
            &&& sbc.a - 256 * carry_bit(sbc) == a - v - cin
            &&& (sbc.f & 0x20 != 0) == (a % 16 < v % 16 + cin)
            &&& zn_and_rest(sub, true, c1.registers) && zn_and_rest(sbc, true, c1.registers)
            &&& sub_spec(src, c, b).1 == b1 && sbc_spec(src, c, b).1 == b1
        }),
{
    let (c1, b1, v) = src.read_spec(c, b);
    let a = c1.registers.a;
    assert(a == c.registers.a && c1.registers.f == c.registers.f);
    let f = c1.registers.f;
    let cin = carry_in(c1.registers);
    law_set_znhc(f, wrap8(a - v) == 0, true, a % 16 < v % 16, a < v);
    law_set_znhc(f, wrap8(a - v - cin) == 0, true, a % 16 < v % 16 + cin, a < v + cin);
}

/// AND, OR and XOR combine the bits of A and the operand; C and N are
/// clear, H is set for AND only, Z tells a zero A; no register but A and F
/// changes.
#[verifier::spinoff_prover]
pub proof fn law_logic_results(src: Src8, c: CPU, b: BusView)
    ensures
        ({
            let (c1, b1, v) = src.read_spec(c, b);
            let a = c.registers.a;
            let and = and_spec(src, c, b).0.registers;
            let or = or_spec(src, c, b).0.registers;
            let xor = xor_spec(src, c, b).0.registers;
            &&& and.a == a & v && carry_bit(and) == 0 && and.f & 0x20 != 0
            &&& or.a == a | v && carry_bit(or) == 0 && or.f & 0x20 == 0
            &&& xor.a == a ^ v && carry_bit(xor) == 0 && xor.f & 0x20 == 0
            &&& zn_and_rest(and, false, c1.registers) && zn_and_rest(or, false, c1.registers)
            &&& zn_and_rest(xor, false, c1.registers)
        }),
{
    let (c1, b1, v) = src.read_spec(c, b);
    let a = c1.registers.a;
    assert(a == c.registers.a && c1.registers.f == c.registers.f);
    let f = c1.registers.f;
    law_set_znhc(f, a & v == 0, false, true, false);
    law_set_znhc(f, a | v == 0, false, false, false);
    law_set_znhc(f, a ^ v == 0, false, false, false);
}

/// INC and DEC of a byte operand `v`: the result is `v + 1` or `v - 1`
/// modulo 256; Z tells a zero result; N is clear for INC and set for DEC;
/// H is the carry into bit 4 (INC of a low nibble 15) or the borrow from it
/// (DEC of a low nibble 0); C and every other register are kept.
#[verifier::spinoff_prover]
pub proof fn law_inc_dec_results(op: RmwOperand8, c: CPU, b: BusView)
    ensures
        ({
            let (b1, v) = op.read_spec(c, b);
            let (ci, bi, ri) = inc8_parts(op, c, b);
            let (cd, bd, rd) = dec8_parts(op, c, b);
            &&& ri == (v + 1) % 256 && rd == (v + 255) % 256
            &&& (ci.registers.f & 0x80 != 0) == (ri == 0) && ci.registers.f & 0x40 == 0
            &&& (ci.registers.f & 0x20 != 0) == (v % 16 == 15)
            &&& (cd.registers.f & 0x80 != 0) == (rd == 0) && cd.registers.f & 0x40 != 0
            &&& (cd.registers.f & 0x20 != 0) == (v % 16 == 0)
            &&& (ci.registers.f & 0x10 != 0) == (c.registers.f & 0x10 != 0)
            &&& (cd.registers.f & 0x10 != 0) == (c.registers.f & 0x10 != 0)
            &&& ci == (CPU { registers: RegisterState { f: ci.registers.f, ..c.registers }, ..c })
            &&& cd == (CPU { registers: RegisterState { f: cd.registers.f, ..c.registers }, ..c })
            &&& bi == b1 && bd == b1
        }),
{
    let (b1, v) = op.read_spec(c, b);
    let f = c.registers.f;
    let zi = wrap8(v + 1) == 0;
    lemma_update_flag(f, ZF_MASK, zi);
    lemma_update_flag(update_bit(f, ZF_MASK, zi), NF_MASK, false);
    lemma_update_flag(update_bit(update_bit(f, ZF_MASK, zi), NF_MASK, false), HF_MASK, v % 16 == 15);
    let zd = wrap8(v - 1) == 0;
    lemma_update_flag(f, ZF_MASK, zd);
    lemma_update_flag(update_bit(f, ZF_MASK, zd), NF_MASK, true);
    lemma_update_flag(update_bit(update_bit(f, ZF_MASK, zd), NF_MASK, true), HF_MASK, v % 16 == 0);
    assert(wrap8(v - 1) == (v + 255) % 256);
}

/// The rotations of A (RLCA, RRCA, RLA, RRA) move the bits as the CB
/// rotations of A do (RLC A, RRC A, RL A, RR A), with the same carry out,
/// but always clear Z.
pub proof fn law_accumulator_rotations(c: CPU)
    ensures
        ({
            let a = c.registers.a;
            let r = c.registers;
            let same = |x: CPU, opcode: u8|
                {
                    let (regs, res) = crate::instructions::cb::cb_apply(opcode, a, r);
                    &&& x.registers.a == res
                    &&& (x.registers.f & 0x10 != 0) == (regs.f & 0x10 != 0)
                    &&& x.registers.f & 0x80 == 0
                    &&& x == (CPU { registers: RegisterState { a: x.registers.a, f: x.registers.f, ..r }, ..c })
                };
            &&& same(rlca_spec(c), 0x07)
            &&& same(rrca_spec(c), 0x0F)
            &&& same(rla_spec(c), 0x17)
            &&& same(rra_spec(c), 0x1F)
        }),
{
    let a = c.registers.a;
    let f = c.registers.f;
    crate::instructions::cb::lemma_cb_bits(a, 0, 0);
    law_set_znhc(f, false, false, false, a & 0x80 != 0);
    law_set_znhc(f, false, false, false, a & 0x01 != 0);
    let rlc = (a << 1u8) | (if a & 0x80 != 0 { 1u8 } else { 0u8 });
    let rrc = (if a & 0x01 != 0 { 0x80u8 } else { 0u8 }) | (a >> 1u8);
    let rl = (a << 1u8) | (if c.registers.cf() { 1u8 } else { 0u8 });
    let rr = (a >> 1u8) | (if c.registers.cf() { 0x80u8 } else { 0u8 });
    law_set_znhc(f, rlc == 0, false, false, a & 0x80 != 0);
    law_set_znhc(f, rrc == 0, false, false, a & 0x01 != 0);
    law_set_znhc(f, rl == 0, false, false, a & 0x80 != 0);
    law_set_znhc(f, rr == 0, false, false, a & 0x01 != 0);
}

/// ADD HL, rr adds a register pair to HL modulo 2^16, with C holding what
/// the 16-bit sum lost (`hl + v = HL + 65536 C`) and H the carry out of bit
/// 11; N is cleared and Z kept; no register but H, L and F changes.
#[verifier::spinoff_prover]
pub proof fn law_add_hl_results(r: Reg16, c: CPU, b: BusView)
    ensures
        ({
            let hl = c.registers.r16(Reg16::HL);
            let v = c.registers.r16(r);
            let x = add_hl_spec(r, c, b).0.registers;
            &&& x.r16(Reg16::HL) + 65536 * carry_bit(x) == hl + v
            &&& (x.f & 0x20 != 0) == (hl % 4096 + v % 4096 >= 4096)
            &&& x.f & 0x40 == 0
            &&& (x.f & 0x80 != 0) == (c.registers.f & 0x80 != 0)
            &&& x == RegisterState { h: x.h, l: x.l, f: x.f, ..c.registers }
        }),
{
    let hl = c.registers.r16(Reg16::HL);
    let v = c.registers.r16(r);
    let regs = c.registers.with_r16(Reg16::HL, wrap16(hl + v));
    crate::registers::law_r16_read_back(c.registers, Reg16::HL, wrap16(hl + v));
    let f = regs.f;
    lemma_update_flag(f, NF_MASK, false);
    lemma_update_flag(update_bit(f, NF_MASK, false), HF_MASK, hl % 4096 + v % 4096 > 4095);
    lemma_update_flag(
        update_bit(update_bit(f, NF_MASK, false), HF_MASK, hl % 4096 + v % 4096 > 4095),
        CF_MASK,
        hl + v > 65535,
    );
}

/// ADD SP, e and LD HL, SP+e add the signed offset byte `e` (-128 to 127)
/// to SP modulo 2^16, the first into SP and the second into HL, with the
/// same flags: Z and N clear, H and C the carries out of bits 3 and 7 of
/// the unsigned low-byte sum.
#[verifier::spinoff_prover]
pub proof fn law_sp_offset_results(c: CPU, b: BusView)
    ensures
        ({
            let e = b.cycle().read(c.registers.pc);
            let sp = c.registers.sp;
            let signed: int = if e < 128 {
                e as int
            } else {
                e - 256
            };
            let x = add_sp_spec(c, b).0.registers;
            let y = crate::instructions::ld::ld_hl_sp_offset_spec(c, b).0.registers;
            &&& x.sp == (sp + signed) % 65536
            &&& y.r16(Reg16::HL) == (sp + signed) % 65536
            &&& y.sp == sp
            &&& x.f == y.f
            &&& x.f & 0x80 == 0 && x.f & 0x40 == 0
            &&& (x.f & 0x20 != 0) == (sp % 16 + e % 16 >= 16)
            &&& (x.f & 0x10 != 0) == (sp % 256 + e >= 256)
        }),
{
    let e = b.cycle().read(c.registers.pc);
    let sp = c.registers.sp;
    let f = c.registers.f;
    law_set_znhc(f, false, false, sp % 16 + e % 16 > 15, sp % 256 + e > 255);
    if e >= 128 {
        assert((sp + e + 0xFF00) % 65536 == (sp + e - 256) % 65536);
    }
    crate::registers::law_r16_read_back(
        c.registers,
        Reg16::HL,
        wrap16(sp + crate::registers::sign_extend(e)),
    );
}

/// SCF then CCF clears C; CCF twice gives C back. Both clear N and H.
pub proof fn law_carry_flag(c: CPU)
    ensures
        scf_spec(c).registers.cf(),
        !ccf_spec(scf_spec(c)).registers.cf(),
        ccf_spec(ccf_spec(c)).registers.cf() == c.registers.cf(),
        !ccf_spec(c).registers.nf() && !ccf_spec(c).registers.hf(),
{
    let f = c.registers.f;
    assert(update_bit(update_bit(update_bit(f, NF_MASK, false), HF_MASK, false), CF_MASK, true)
        & CF_MASK != 0) by (bit_vector);
    let g = update_bit(update_bit(update_bit(f, NF_MASK, false), HF_MASK, false), CF_MASK, true);
    assert(update_bit(update_bit(update_bit(g, NF_MASK, false), HF_MASK, false), CF_MASK, false)
        & CF_MASK == 0) by (bit_vector);
    let h = update_bit(
        update_bit(update_bit(f, NF_MASK, false), HF_MASK, false),
        CF_MASK,
        !(f & CF_MASK != 0),
    );
    assert(update_bit(
        update_bit(update_bit(h, NF_MASK, false), HF_MASK, false),
        CF_MASK,
        !(h & CF_MASK != 0),
    ) & CF_MASK == f & CF_MASK) by (bit_vector)
        requires
            h == update_bit(
                update_bit(update_bit(f, NF_MASK, false), HF_MASK, false),
                CF_MASK,
                !(f & CF_MASK != 0),
            ),
    ;
    assert(h & NF_MASK == 0 && h & HF_MASK == 0) by (bit_vector)
        requires
            h == update_bit(
                update_bit(update_bit(f, NF_MASK, false), HF_MASK, false),
                CF_MASK,
                !(f & CF_MASK != 0),
            ),
    ;
}


/// CP is SUB without storing the result: the same flags, PC, bus and
/// registers, except that A keeps its value.
pub proof fn law_cp_is_sub(src: Src8, c: CPU, b: BusView)
    ensures
        cp_spec(src, c, b).1 == sub_spec(src, c, b).1,
        cp_spec(src, c, b).0 == (CPU {
            registers: RegisterState { a: src.read_spec(c, b).0.registers.a, ..sub_spec(src, c, b).0.registers },
            ..sub_spec(src, c, b).0
        }),
{
    let (c1, b1, v) = src.read_spec(c, b);
    let a = c1.registers.a;
    assert((wrap8(a - v) == 0) == (a == v));
}


/// A byte of packed BCD: two decimal digits, one per nibble.
pub open spec fn is_bcd(x: u8) -> bool {
    x % 16 <= 9 && x / 16 <= 9
}

/// The number (0 to 99) a packed BCD byte stands for.
pub open spec fn bcd_value(x: u8) -> int {
    (x / 16) * 10 + x % 16
}

/// The packed BCD byte of a number 0 to 99.
pub open spec fn to_bcd(n: int) -> u8 {
    ((n / 10) * 16 + n % 10) as u8
}

/// The decimal adjustment after adding two BCD bytes, on plain values.
proof fn lemma_daa_after_add(x: u8, y: u8)
    requires
        is_bcd(x),
        is_bcd(y),
    ensures
        ({
            let a = ((x + y) % 256) as u8;
            let big = x + y > 255 || a > 0x99;
            let v1 = if big { ((a + 0x60) % 256) as u8 } else { a };
            let v2 = if x % 16 + y % 16 > 15 || v1 % 16 > 9 { ((v1 + 0x06) % 256) as u8 } else { v1 };
            v2 == to_bcd((bcd_value(x) + bcd_value(y)) % 100) && big == (bcd_value(x) + bcd_value(y)
                >= 100)
        }),
{
    assert({
        let a = ((x + y) % 256) as u8;
        let big = x + y > 255 || a > 0x99;
        let v1 = if big { ((a + 0x60) % 256) as u8 } else { a };
        let v2 = if x % 16 + y % 16 > 15 || v1 % 16 > 9 { ((v1 + 0x06) % 256) as u8 } else { v1 };
        let n = (x / 16) * 10 + x % 16 + (y / 16) * 10 + y % 16;
        v2 == (((n % 100) / 10) * 16 + (n % 100) % 10) as u8 && big == (n >= 100)
    }) by (bit_vector)
        requires
            x % 16 <= 9 && x / 16 <= 9,
            y % 16 <= 9 && y / 16 <= 9,
    ;
}

/// The decimal adjustment after subtracting two BCD bytes, on plain values.
proof fn lemma_daa_after_sub(x: u8, y: u8)
    requires
        is_bcd(x),
        is_bcd(y),
    ensures
        ({
            let a = ((x - y + 256) % 256) as u8;
            let v1 = if x < y { ((a - 0x60 + 256) % 256) as u8 } else { a };
            let v2 = if x % 16 < y % 16 { ((v1 - 0x06 + 256) % 256) as u8 } else { v1 };
            v2 == to_bcd((bcd_value(x) + 100 - bcd_value(y)) % 100) && (x < y) == (bcd_value(x)
                < bcd_value(y))
        }),
{
    assert({
        let a = ((x - y + 256) % 256) as u8;
        let v1 = if x < y { ((a - 0x60 + 256) % 256) as u8 } else { a };
        let v2 = if x % 16 < y % 16 { ((v1 - 0x06 + 256) % 256) as u8 } else { v1 };
        let n = (x / 16) * 10 + x % 16 + 100 - ((y / 16) * 10 + y % 16);
        v2 == (((n % 100) / 10) * 16 + (n % 100) % 10) as u8 && (x < y) == ((x / 16) * 10 + x % 16
            < (y / 16) * 10 + y % 16)
    }) by (bit_vector)
        requires
            x % 16 <= 9 && x / 16 <= 9,
            y % 16 <= 9 && y / 16 <= 9,
    ;
}

/// A small difference wraps to the same byte as its non-negative twin.
proof fn lemma_wrap8_below(d: int)
    requires
        -256 < d < 256,
    ensures
        wrap8(d) == ((d + 256) % 256) as u8,
{
    if d >= 0 {
        assert((d + 256) % 256 == d % 256);
    } else {
        assert(d % 256 == d + 256);
    }
}

/// DAA after ADD of two packed BCD bytes gives their BCD sum (mod 100),
/// with C set on a decimal carry; Z tells a zero result, N and H are clear.
#[verifier::spinoff_prover]
pub proof fn law_daa_after_add(c: CPU, b: BusView)
    requires
        is_bcd(c.registers.a),
        is_bcd(c.registers.b),
    ensures
        ({
            let x = c.registers.a;
            let y = c.registers.b;
            let r = daa_spec(add_spec(Src8::Reg(Reg8::B), c, b).0).registers;
            &&& r.a == to_bcd((bcd_value(x) + bcd_value(y)) % 100)
            &&& r.cf() == (bcd_value(x) + bcd_value(y) >= 100)
            &&& r.zf() == (r.a == 0)
            &&& !r.hf()
            &&& !r.nf()
        }),
{
    let x = c.registers.a;
    let y = c.registers.b;
    lemma_daa_after_add(x, y);
    let f = c.registers.f;
    let z = wrap8(x + y) == 0;
    let h = x % 16 + y % 16 > 15;
    let cy = x + y > 255;
    let c1 = add_spec(Src8::Reg(Reg8::B), c, b).0;
    let fa = set_znhc(f, z, false, h, cy);
    assert(c1.registers.f == fa && c1.registers.a == wrap8(x + y));
    law_set_znhc(f, z, false, h, cy);
    let big = cy || wrap8(x + y) > 0x99;
    lemma_update_flag(fa, CF_MASK, true);
    let fa1 = if big {
        update_bit(fa, CF_MASK, true)
    } else {
        fa
    };
    let (r, v) = bcd_adjust_spec(c1.registers, c1.registers.a);
    assert(r.f == update_bit(update_bit(fa1, ZF_MASK, v == 0), HF_MASK, false));
    lemma_update_flag(fa1, ZF_MASK, v == 0);
    lemma_update_flag(update_bit(fa1, ZF_MASK, v == 0), HF_MASK, false);
}

/// DAA after SUB of two packed BCD bytes gives their BCD difference
/// (mod 100), with C set on a decimal borrow; Z tells a zero result, N is
/// set and H clear.
#[verifier::spinoff_prover]
#[verifier::rlimit(80)]
pub proof fn law_daa_after_sub(c: CPU, b: BusView)
    requires
        is_bcd(c.registers.a),
        is_bcd(c.registers.b),
    ensures
        ({
            let x = c.registers.a;
            let y = c.registers.b;
            let r = daa_spec(sub_spec(Src8::Reg(Reg8::B), c, b).0).registers;
            &&& r.a == to_bcd((bcd_value(x) + 100 - bcd_value(y)) % 100)
            &&& r.cf() == (bcd_value(x) < bcd_value(y))
            &&& r.zf() == (r.a == 0)
            &&& !r.hf()
            &&& r.nf()
        }),
{
    let x = c.registers.a;
    let y = c.registers.b;
    lemma_daa_after_sub(x, y);
    lemma_wrap8_below(x - y);
    let f = c.registers.f;
    let z = wrap8(x - y) == 0;
    let h = x % 16 < y % 16;
    let cy = x < y;
    let c1 = sub_spec(Src8::Reg(Reg8::B), c, b).0;
    let fs = set_znhc(f, z, true, h, cy);
    assert(c1.registers.f == fs && c1.registers.a == wrap8(x - y));
    law_set_znhc(f, z, true, h, cy);
    let a = wrap8(x - y);
    let v1 = if cy {
        wrap8(a - 0x60)
    } else {
        a
    };
    lemma_wrap8_below(a - 0x60);
    lemma_wrap8_below(v1 - 0x06);
    let (r, v) = bcd_adjust_spec(c1.registers, c1.registers.a);
    assert(r.f == update_bit(update_bit(fs, ZF_MASK, v == 0), HF_MASK, false));
    lemma_update_flag(fs, ZF_MASK, v == 0);
    lemma_update_flag(update_bit(fs, ZF_MASK, v == 0), HF_MASK, false);
}

} // verus!
