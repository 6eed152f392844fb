//! CB-prefixed bit manipulation instructions

use crate::bus::{Bus, BusView};
use crate::cpu::{advanced, nibbles_swapped, CPU};
use crate::operand::{Reg16, Reg8, RmwOperand8};
use crate::registers::{
    lemma_update_flag, set_znhc, update_bit, RegisterState, HF_MASK, NF_MASK, ZF_MASK,
};
use vstd::prelude::*;

verus! {

/// The operand a CB opcode works on, from its low three bits.
pub open spec fn cb_target(opcode: u8) -> RmwOperand8 {
    let sel = opcode % 8;
    if sel == 0 {
        RmwOperand8::Reg(Reg8::B)
    } else if sel == 1 {
        RmwOperand8::Reg(Reg8::C)
    } else if sel == 2 {
        RmwOperand8::Reg(Reg8::D)
    } else if sel == 3 {
        RmwOperand8::Reg(Reg8::E)
    } else if sel == 4 {
        RmwOperand8::Reg(Reg8::H)
    } else if sel == 5 {
        RmwOperand8::Reg(Reg8::L)
    } else if sel == 6 {
        RmwOperand8::Indirect(Reg16::HL)
    } else {
        RmwOperand8::Reg(Reg8::A)
    }
}

/// BIT, RES and SET opcodes name the bit in bits 3-5.
pub open spec fn cb_bit(opcode: u8) -> u8 {
    ((opcode % 64) / 8) as u8
}

/// Whether a CB opcode is a BIT test (it writes nothing back).
pub open spec fn cb_is_bit_test(opcode: u8) -> bool {
    0x40 <= opcode < 0x80
}

/// The effect of a CB opcode on a value `v` and the registers: the new
/// registers and the value to write back (for BIT, `v` itself).
pub open spec fn cb_apply(opcode: u8, v: u8, r: RegisterState) -> (RegisterState, u8) {
    if opcode < 0x08 {
        // RLC
        let carry = v & 0x80 != 0;
        let res = (v << 1u8) | (if carry { 1u8 } else { 0u8 });
        (r.with_znhc(res == 0, false, false, carry), res)
    } else if opcode < 0x10 {
        // RRC
        let carry = v & 0x01 != 0;
        let res = (if carry { 0x80u8 } else { 0u8 }) | (v >> 1u8);
        (r.with_znhc(res == 0, false, false, carry), res)
    } else if opcode < 0x18 {
        // RL
        let res = (v << 1u8) | (if r.cf() { 1u8 } else { 0u8 });
        (r.with_znhc(res == 0, false, false, v & 0x80 != 0), res)
    } else if opcode < 0x20 {
        // RR
        let res = (v >> 1u8) | (if r.cf() { 0x80u8 } else { 0u8 });
        (r.with_znhc(res == 0, false, false, v & 0x01 != 0), res)
    } else if opcode < 0x28 {
        // SLA
        let res = v << 1u8;
        (r.with_znhc(res == 0, false, false, v & 0x80 != 0), res)
    } else if opcode < 0x30 {
        // SRA
        let res = (v >> 1u8) | (v & 0x80);
        (r.with_znhc(res == 0, false, false, v & 0x01 != 0), res)
    } else if opcode < 0x38 {
        // SWAP
        let res = nibbles_swapped(v);
        (r.with_znhc(res == 0, false, false, false), res)
    } else if opcode < 0x40 {
        // SRL
        let res = v >> 1u8;
        (r.with_znhc(res == 0, false, false, v & 0x01 != 0), res)
    } else if opcode < 0x80 {
        // BIT
        (r.with_znh(v & (1u8 << cb_bit(opcode)) == 0, false, true), v)
    } else if opcode < 0xC0 {
        // RES
        (r, v & !(1u8 << cb_bit(opcode)))
    } else {
        // SET
        (r, v | (1u8 << cb_bit(opcode)))
    }
}

/// The parts of a CB instruction before the write-back: CPU, bus, target,
/// value to write.
pub open spec fn cb_parts(c: CPU, b: BusView) -> (CPU, BusView, u8, u8) {
    let (c1, b1, opcode) = c.next_u8_spec(b);
    let target = cb_target(opcode);
    let (b2, v) = target.read_spec(c1, b1);
    let (regs, res) = cb_apply(opcode, v, c1.registers);
    (c1.with_regs(regs), b2, opcode, res)
}

/// A CB operation changes only the flags among the registers: HL stays.
pub proof fn lemma_cb_apply_keeps_hl(opcode: u8, v: u8, r: RegisterState)
    ensures
        cb_apply(opcode, v, r).0.r16(Reg16::HL) == r.r16(Reg16::HL),
{
}

/// A CB-prefixed instruction: fetch the second opcode byte, read the
/// operand, apply, and write back (BIT on memory takes an M-cycle instead).
pub open spec fn cb_spec(c: CPU, b: BusView) -> (CPU, BusView) {
    let (c2, b2, opcode, res) = cb_parts(c, b);
    let target = cb_target(opcode);
    if cb_is_bit_test(opcode) {
        (
            c2,
            if target is Indirect {
                b2.cycle()
            } else {
                b2
            },
        )
    } else {
        target.write_spec(c2, b2, res)
    }
}

/// The write-back of a CB instruction is one the bus can take.
pub open spec fn cb_ok(c: CPU, b: BusView) -> bool {
    let (c2, b2, opcode, res) = cb_parts(c, b);
    !cb_is_bit_test(opcode) ==> cb_target(opcode).write_ok(c2, b2, res)
}

/// Decode operand from CB opcode lower nibble
fn decode_operand(opcode: u8) -> (r: RmwOperand8)
    ensures
        r == cb_target(opcode),
{
    let sel = opcode & 0x07;
    assert(opcode & 7 == opcode % 8) by (bit_vector);
    if sel == 0x00 {
        RmwOperand8::Reg(Reg8::B)
    } else if sel == 0x01 {
        RmwOperand8::Reg(Reg8::C)
    } else if sel == 0x02 {
        RmwOperand8::Reg(Reg8::D)
    } else if sel == 0x03 {
        RmwOperand8::Reg(Reg8::E)
    } else if sel == 0x04 {
        RmwOperand8::Reg(Reg8::H)
    } else if sel == 0x05 {
        RmwOperand8::Reg(Reg8::L)
    } else if sel == 0x06 {
        RmwOperand8::Indirect(Reg16::HL)
    } else {
        RmwOperand8::Reg(Reg8::A)
    }
}

/// Execute CB-prefixed instruction
#[allow(clippy::too_many_lines)]
#[verifier::rlimit(40)]
pub fn cb(cpu: &mut CPU, bus: &mut Bus)
    requires
        old(bus).wf(),
        old(bus)@.room(163),
        cb_ok(*old(cpu), old(bus)@),
    ensures
        final(bus).wf(),
        (*final(cpu), final(bus)@) == cb_spec(*old(cpu), old(bus)@),
        advanced(old(bus)@, final(bus)@, 163),
{
    let opcode = cpu.next_u8(bus);
    let target = decode_operand(opcode);
    let value = target.read(cpu, bus);

    if opcode < 0x08 {
        // RLC - Rotate Left Circular
        let carry = value & 0x80 != 0;
        let result = (value << 1u8) | (if carry { 1u8 } else { 0u8 });
        cpu.registers.set_zf(result == 0);
        cpu.registers.set_nf(false);
        cpu.registers.set_hf(false);
        cpu.registers.set_cf(carry);
        target.write(cpu, bus, result);
    } else if opcode < 0x10 {
        // RRC - Rotate Right Circular
        let carry = value & 0x01 != 0;
        let result = (if carry { 0x80u8 } else { 0u8 }) | (value >> 1u8);
        cpu.registers.set_zf(result == 0);
        cpu.registers.set_nf(false);
        cpu.registers.set_hf(false);
        cpu.registers.set_cf(carry);
        target.write(cpu, bus, result);
    } else if opcode < 0x18 {
        // RL - Rotate Left through carry
        let result = (value << 1u8) | (if cpu.registers.flg_c() { 1u8 } else { 0u8 });
        cpu.registers.set_zf(result == 0);
        cpu.registers.set_nf(false);
        cpu.registers.set_hf(false);
        cpu.registers.set_cf(value & 0x80 != 0);
        target.write(cpu, bus, result);
    } else if opcode < 0x20 {
        // RR - Rotate Right through carry
        let result = (value >> 1u8) | (if cpu.registers.flg_c() { 0x80u8 } else { 0u8 });
        cpu.registers.set_zf(result == 0);
        cpu.registers.set_nf(false);
        cpu.registers.set_hf(false);
        cpu.registers.set_cf(value & 0x01 != 0);
        target.write(cpu, bus, result);
    } else if opcode < 0x28 {
        // SLA - Shift Left Arithmetic
        let result = value << 1u8;
        cpu.registers.set_zf(result == 0);
        cpu.registers.set_nf(false);
        cpu.registers.set_hf(false);
        cpu.registers.set_cf(value & 0x80 != 0);
        target.write(cpu, bus, result);
    } else if opcode < 0x30 {
        // SRA - Shift Right Arithmetic (preserves sign)
        let result = (value >> 1u8) | (value & 0x80);
        cpu.registers.set_zf(result == 0);
        cpu.registers.set_nf(false);
        cpu.registers.set_hf(false);
        cpu.registers.set_cf(value & 0x01 != 0);
        target.write(cpu, bus, result);
    } else if opcode < 0x38 {
        // SWAP - Swap nibbles
        let result = swap_nibbles(value);
        cpu.registers.set_zf(result == 0);
        cpu.registers.set_nf(false);
        cpu.registers.set_hf(false);
        cpu.registers.set_cf(false);
        target.write(cpu, bus, result);
    } else if opcode < 0x40 {
        // SRL - Shift Right Logical
        let result = value >> 1u8;
        cpu.registers.set_zf(result == 0);
        cpu.registers.set_nf(false);
        cpu.registers.set_hf(false);
        cpu.registers.set_cf(value & 0x01 != 0);
        target.write(cpu, bus, result);
    } else if opcode < 0x80 {
        // BIT - Test bit
        let bit_index = (opcode - 0x40) / 8;
        assert(cb_bit(opcode) == bit_index);
        let check_zero = value & (1u8 << bit_index) == 0;
        cpu.registers.set_zf(check_zero);
        cpu.registers.set_nf(false);
        cpu.registers.set_hf(true);
        // BIT doesn't write back, but memory operations need extra cycle
        if target.is_memory() {
            bus.generic_cycle();
        }
    } else if opcode < 0xC0 {
        // RES - Reset bit
        let bit_index = (opcode - 0x80) / 8;
        assert(cb_bit(opcode) == bit_index);
        let result = value & !(1u8 << bit_index);
        target.write(cpu, bus, result);
    } else {
        // SET - Set bit
        let bit_index = (opcode - 0xC0) / 8;
        assert(cb_bit(opcode) == bit_index);
        let result = value | (1u8 << bit_index);
        target.write(cpu, bus, result);
    }
}

/// Swap upper and lower nibbles of a byte
#[inline]
pub fn swap_nibbles(byte: u8) -> (r: u8)
    ensures
        r == nibbles_swapped(byte),
{
    assert(((byte << 4u8) | (byte >> 4u8)) == ((byte % 16) * 16 + byte / 16) as u8) by (bit_vector);
    (byte << 4u8) | (byte >> 4u8)
}


/// A CB opcode's bits 0-2 name its operand in the same order as the main
/// opcode map (B, C, D, E, H, L, (HL), A), and the opcodes 0x40-0x7F are
/// the bit tests, which write nothing back.
pub proof fn law_cb_target(opcode: u8)
    ensures
        cb_target(opcode) == crate::instructions::map_rmw(opcode as int % 8),
        cb_is_bit_test(opcode) == (0x40 <= opcode < 0x80),
{
}

/// The byte identities behind the CB operations: shifts as arithmetic, and
/// what clearing, setting or testing one bit does to each bit.
pub proof fn lemma_cb_bits(v: u8, n: u8, i: u8)
    by (bit_vector)
    requires
        n < 8,
        i < 8,
    ensures
        ((v << 1u8) | (if v & 0x80 != 0 {
            1u8
        } else {
            0u8
        })) == (v % 128) * 2 + v / 128,
        ((if v & 0x01 != 0 {
            0x80u8
        } else {
            0u8
        }) | (v >> 1u8)) == v / 2 + (v % 2) * 128,
        ((v << 1u8) | 1u8) == (v % 128) * 2 + 1,
        ((v << 1u8) | 0u8) == (v % 128) * 2,
        ((v >> 1u8) | 0x80u8) == v / 2 + 128,
        ((v >> 1u8) | 0u8) == v / 2,
        (v << 1u8) == (v % 128) * 2,
        ((v >> 1u8) | (v & 0x80u8)) == v / 2 + (v / 128) * 128,
        (v >> 1u8) == v / 2,
        (v & 0x80u8 != 0u8) == (v >= 128u8),
        (v & 0x01u8 != 0u8) == (v % 2u8 == 1u8),
        ((v & !(1u8 << n)) >> i) & 1u8 == if i == n {
            0u8
        } else {
            (v >> i) & 1u8
        },
        ((v | (1u8 << n)) >> i) & 1u8 == if i == n {
            1u8
        } else {
            (v >> i) & 1u8
        },
        (v & (1u8 << n) == 0u8) == ((v >> n) & 1u8 == 0u8),
{
}

/// What each CB operation does to the byte `v` it works on, with `r` the
/// registers before it and `n` the bit that bits 3-5 of the opcode name.
/// The shifts and rotations move every bit one place: RLC, RL and SLA to
/// the left, bit 7 going to the carry and bit 0 taking old bit 7, the
/// carry, or 0; RRC, RR, SRA and SRL to the right, bit 0 going to the carry
/// and bit 7 taking old bit 0, the carry, old bit 7 (so SRA halves a signed
/// byte, rounding down), or 0. SWAP exchanges the nibbles. These set Z
/// exactly for a zero result and clear N and H; SWAP clears C. BIT n sets
/// Z exactly when bit n of `v` is clear, clears N, sets H, and keeps C and
/// the byte. RES n and SET n clear or set bit n, keep the other bits, and
/// change no flag. No register but F changes.
pub proof fn law_cb_ops(opcode: u8, v: u8, r: RegisterState)
    ensures
        ({
            let (regs, res) = cb_apply(opcode, v, r);
            let cin: int = if r.f & 0x10 != 0 {
                1
            } else {
                0
            };
            let n: u8 = ((opcode / 8) % 8) as u8;
            let z = regs.f & 0x80 != 0;
            let nf = regs.f & 0x40 != 0;
            let h = regs.f & 0x20 != 0;
            let cy = regs.f & 0x10 != 0;
            &&& regs == RegisterState { f: regs.f, ..r }
            &&& opcode < 0x40 ==> z == (res == 0) && !nf && !h
            &&& opcode < 0x08 ==> res == (v % 128) * 2 + v / 128 && cy == (v >= 128)
            &&& 0x08 <= opcode < 0x10 ==> res == v / 2 + (v % 2) * 128 && cy == (v % 2 == 1)
            &&& 0x10 <= opcode < 0x18 ==> res == (v % 128) * 2 + cin && cy == (v >= 128)
            &&& 0x18 <= opcode < 0x20 ==> res == v / 2 + cin * 128 && cy == (v % 2 == 1)
            &&& 0x20 <= opcode < 0x28 ==> res == (v % 128) * 2 && cy == (v >= 128)
            &&& 0x28 <= opcode < 0x30 ==> res == v / 2 + (v / 128) * 128 && cy == (v % 2 == 1) && (
            if res < 128 {
                res as int
            } else {
                res - 256
            }) == (if v < 128 {
                v as int
            } else {
                v - 256
            }) / 2
            &&& 0x30 <= opcode < 0x38 ==> res == (v % 16) * 16 + v / 16 && !cy
            &&& 0x38 <= opcode < 0x40 ==> res == v / 2 && cy == (v % 2 == 1)
            &&& 0x40 <= opcode < 0x80 ==> res == v && z == ((v >> n) & 1 == 0) && !nf && h && cy == (
            r.f & 0x10 != 0)
            &&& 0x80 <= opcode ==> regs == r && forall|i: u8|
                i < 8 ==> #[trigger] ((res >> i) & 1) == if i == n {
                    if opcode < 0xC0 {
                        0u8
                    } else {
                        1u8
                    }
                } else {
                    (v >> i) & 1
                }
        }),
{
    let n: u8 = ((opcode / 8) % 8) as u8;
    assert(cb_bit(opcode) == n);
    lemma_cb_bits(v, n, 0);
    let (regs, res) = cb_apply(opcode, v, r);
    if opcode < 0x40 {
        let carry = if opcode < 0x08 || (0x10 <= opcode < 0x18) || (0x20 <= opcode < 0x28) {
            v & 0x80 != 0
        } else if 0x30 <= opcode < 0x38 {
            false
        } else {
            v & 0x01 != 0
        };
        crate::registers::law_set_znhc(r.f, res == 0, false, false, carry);
        assert(regs.f == set_znhc(r.f, res == 0, false, false, carry));
    } else if opcode < 0x80 {
        let z = v & (1u8 << n) == 0;
        lemma_update_flag(r.f, ZF_MASK, z);
        lemma_update_flag(update_bit(r.f, ZF_MASK, z), NF_MASK, false);
        lemma_update_flag(update_bit(update_bit(r.f, ZF_MASK, z), NF_MASK, false), HF_MASK, true);
    } else {
        assert forall|i: u8| i < 8 implies #[trigger] ((res >> i) & 1) == if i == n {
            if opcode < 0xC0 {
                0u8
            } else {
                1u8
            }
        } else {
            (v >> i) & 1
        } by {
            lemma_cb_bits(v, n, i);
        }
    }
}

/// Swapping the nibbles twice gives the byte back.
pub proof fn law_swap_twice(byte: u8)
    ensures
        nibbles_swapped(nibbles_swapped(byte)) == byte,
{
    assert(((((((byte % 16) * 16 + byte / 16) as u8) % 16) * 16 + (((byte % 16) * 16 + byte / 16)
        as u8) / 16) as u8) == byte) by (bit_vector);
}

} // verus!
