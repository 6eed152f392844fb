//! Jump, Call, and Return instructions

use crate::bus::{is_ram, lemma_cycle, lemma_ram_read, lemma_ram_write, Bus, BusView};
use crate::cpu::{advanced, law_push_pop, CPU};
use crate::operand::Reg16;
use crate::registers::{sign_extend, sign_extend_byte, wrap16, RegisterState};
use vstd::prelude::*;

use super::Flag;

verus! {

/// Whether the registers meet a flag condition.
pub open spec fn flag_holds(r: RegisterState, flag: Flag) -> bool {
    match flag {
        Flag::FlagC => r.cf(),
        Flag::FlagNC => !r.cf(),
        Flag::FlagZ => r.zf(),
        Flag::FlagNZ => !r.zf(),
    }
}

/// Whether an optional condition is met (no condition always is).
pub open spec fn condition_holds(r: RegisterState, condition: Option<Flag>) -> bool {
    match condition {
        None => true,
        Some(flag) => flag_holds(r, flag),
    }
}

/// A condition reads one flag of F: C holds exactly when the carry bit
/// (bit 4) is set and NC exactly when it is clear; Z holds exactly when the
/// zero bit (bit 7) is set and NZ exactly when it is clear. No condition
/// always holds.
pub proof fn law_conditions(r: RegisterState)
    ensures
        condition_holds(r, Some(Flag::FlagC)) == (r.f & 0x10 != 0),
        condition_holds(r, Some(Flag::FlagNC)) == (r.f & 0x10 == 0),
        condition_holds(r, Some(Flag::FlagZ)) == (r.f & 0x80 != 0),
        condition_holds(r, Some(Flag::FlagNZ)) == (r.f & 0x80 == 0),
        condition_holds(r, None),
{
}

/// A relative jump reads its offset byte `e` at PC, which then points past
/// it, at `p`. The jump is taken exactly when its condition holds, and
/// then lands at `p + e`, with `e` read as a signed byte (-128 to 127) and
/// the sum taken modulo 2^16; else PC stays at `p`.
pub proof fn law_jr_target(condition: Option<Flag>, c: CPU, b: BusView)
    ensures
        ({
            let e = b.cycle().read(c.registers.pc);
            let p = (c.registers.pc + 1) % 0x10000;
            let offset: int = if e < 128 {
                e as int
            } else {
                e - 256
            };
            jr_spec(condition, c, b).0.registers.pc == if condition_holds(c.registers, condition) {
                (p + offset) % 0x10000
            } else {
                p
            }
        }),
{
    let e = b.cycle().read(c.registers.pc);
    let p = (c.registers.pc + 1) % 0x10000;
    if e >= 128 {
        assert((p + e + 0xFF00) % 0x10000 == (p + e - 256) % 0x10000);
    }
}

/// An absolute jump or call reads its target, low byte first, from the two
/// bytes at PC; it is taken exactly when its condition holds, and then PC
/// is the target; else PC moves past the two bytes.
pub proof fn law_jp_call_target(condition: Option<Flag>, c: CPU, b: BusView)
    ensures
        ({
            let pc = c.registers.pc;
            let lo = b.cycle().read(pc);
            let hi = b.cycle().cycle().read(((pc + 1) % 0x10000) as u16);
            let target = hi * 256 + lo;
            let past = (pc + 2) % 0x10000;
            let taken = condition_holds(c.registers, condition);
            &&& jp_spec(condition, c, b).0.registers.pc == if taken {
                target
            } else {
                past
            }
            &&& call_spec(condition, c, b).0.registers.pc == if taken {
                target
            } else {
                past
            }
        }),
{
    let pc = c.registers.pc;
    let lo = b.cycle().read(pc);
    let hi = b.cycle().cycle().read(((pc + 1) % 0x10000) as u16);
    assert(crate::registers::word(hi, lo) == hi * 256 + lo);
}

/// A call that is taken, with its stack in RAM, and then a RET: the CALL
/// jumps to its target with SP two lower, and the RET comes back to the
/// instruction after the CALL (PC past the two target bytes) with SP as
/// it was before the CALL.
pub proof fn law_call_ret(condition: Option<Flag>, c: CPU, b: BusView)
    requires
        b.inv(),
        b.room(10),
        is_ram(wrap16(c.registers.sp - 1)),
        is_ram(wrap16(c.registers.sp - 2)),
        condition_holds(c.registers, condition),
    ensures
        ({
            let pc = c.registers.pc;
            let sp = c.registers.sp;
            let (c1, b1) = call_spec(condition, c, b);
            let (c2, b2) = ret_spec(None, c1, b1);
            &&& c1.registers.pc == c.next_u16_spec(b).2
            &&& c1.registers.sp == (sp + 65534) % 65536
            &&& c2.registers.pc == (pc + 2) % 65536
            &&& c2.registers.sp == sp
        }),
{
    let pc = c.registers.pc;
    let (c1, b1, address) = c.next_u16_spec(b);
    lemma_cycle(b);
    lemma_cycle(b.cycle());
    let ret = c1.registers.pc;
    assert(ret == (pc + 2) % 65536);
    law_push_pop(c1, b1, ret);
    let (c2, b2) = c1.push_spec(b1, ret);
    lemma_cycle(b1);
    let sp1 = wrap16(c.registers.sp - 1);
    let spb = wrap16(sp1 - 1);
    lemma_ram_write(b1.cycle(), sp1, crate::registers::hi_byte(ret));
    let bw = b1.cycle().write(sp1, crate::registers::hi_byte(ret));
    lemma_cycle(bw);
    lemma_ram_write(bw.cycle(), spb, crate::registers::lo_byte(ret));
    assert(b2 == bw.cycle().write(spb, crate::registers::lo_byte(ret)));
    let b3 = b2.cycle();
    let sp2 = c2.registers.sp;
    let sp3 = wrap16(sp2 + 1);
    assert(b2.room(3) && b2.inv());
    lemma_cycle(b2);
    lemma_cycle(b3);
    lemma_cycle(b3.cycle());
    lemma_cycle(b2.cycle().cycle());
    lemma_ram_read(b3.cycle(), sp2);
    lemma_ram_read(b2.cycle(), sp2);
    lemma_ram_read(b3.cycle().cycle(), sp3);
    lemma_ram_read(b2.cycle().cycle(), sp3);
    assert(sp3 == wrap16(c.registers.sp - 1));
}

/// JP nn / JP cc,nn: read the target; when taken, jump and spend an M-cycle.
pub open spec fn jp_spec(condition: Option<Flag>, c: CPU, b: BusView) -> (CPU, BusView) {
    let (c1, b1, address) = c.next_u16_spec(b);
    if condition_holds(c1.registers, condition) {
        (c1.with_pc(address), b1.cycle())
    } else {
        (c1, b1)
    }
}

/// JR e / JR cc,e: read a signed offset; when taken, jump relative to the
/// next instruction and spend an M-cycle.
pub open spec fn jr_spec(condition: Option<Flag>, c: CPU, b: BusView) -> (CPU, BusView) {
    let (c1, b1, offset) = c.next_u8_spec(b);
    let address = wrap16(c1.registers.pc + sign_extend(offset));
    if condition_holds(c1.registers, condition) {
        (c1.with_pc(address), b1.cycle())
    } else {
        (c1, b1)
    }
}

/// JP HL.
pub open spec fn jp_hl_spec(c: CPU) -> CPU {
    c.with_pc(c.registers.r16(Reg16::HL))
}

/// RET / RET cc: when taken, pop PC and spend an M-cycle; a conditional
/// return spends one more M-cycle either way.
pub open spec fn ret_spec(condition: Option<Flag>, c: CPU, b: BusView) -> (CPU, BusView) {
    let (c1, b1) = if condition_holds(c.registers, condition) {
        let (cp, bp, address) = c.pop_spec(b);
        (cp.with_pc(address), bp.cycle())
    } else {
        (c, b)
    };
    if condition is Some {
        (c1, b1.cycle())
    } else {
        (c1, b1)
    }
}

/// RETI: interrupts on, pop PC, one M-cycle.
pub open spec fn reti_spec(c: CPU, b: BusView) -> (CPU, BusView) {
    let (c1, b1, address) = c.pop_spec(BusView { ime: 1, ..b });
    (c1.with_pc(address), b1.cycle())
}

/// CALL nn / CALL cc,nn: read the target; when taken, push the return
/// address, jump, and spend an M-cycle.
pub open spec fn call_spec(condition: Option<Flag>, c: CPU, b: BusView) -> (CPU, BusView) {
    let (c1, b1, address) = c.next_u16_spec(b);
    if condition_holds(c1.registers, condition) {
        let (c2, b2) = c1.push_spec(b1, c1.registers.pc);
        (c2.with_pc(address), b2.cycle())
    } else {
        (c1, b1)
    }
}

/// The pushes of a CALL are ones the bus can take.
pub open spec fn call_ok(condition: Option<Flag>, c: CPU, b: BusView) -> bool {
    let (c1, b1, address) = c.next_u16_spec(b);
    condition_holds(c1.registers, condition) ==> c1.push_ok(b1, c1.registers.pc)
}

/// RST: one M-cycle, push PC, jump to the vector.
pub open spec fn rst_spec(vector: u8, c: CPU, b: BusView) -> (CPU, BusView) {
    let (c1, b1) = c.push_spec(b.cycle(), c.registers.pc);
    (c1.with_pc(vector as u16), b1)
}

/// The pushes of an RST are ones the bus can take.
pub open spec fn rst_ok(c: CPU, b: BusView) -> bool {
    c.push_ok(b.cycle(), c.registers.pc)
}

/// Check if flag condition is met
fn check_flag(cpu: &CPU, flag: Flag) -> (r: bool)
    ensures
        r == flag_holds(cpu.registers, flag),
{
    match flag {
        Flag::FlagC => cpu.registers.flg_c(),
        Flag::FlagNC => cpu.registers.flg_nc(),
        Flag::FlagZ => cpu.registers.flg_z(),
        Flag::FlagNZ => cpu.registers.flg_nz(),
    }
}

/// Whether a jump with an optional flag condition is taken
fn jump_taken(cpu: &CPU, condition: Option<Flag>) -> (r: bool)
    ensures
        r == condition_holds(cpu.registers, condition),
{
    match condition {
        Some(flag) => check_flag(cpu, flag),
        None => true,
    }
}

/// JP nn or JP cc,nn - absolute jump
pub fn jp(condition: Option<Flag>, cpu: &mut CPU, bus: &mut Bus)
    requires
        old(bus).wf(),
        old(bus)@.room(3),
    ensures
        final(bus).wf(),
        (*final(cpu), final(bus)@) == jp_spec(condition, *old(cpu), old(bus)@),
        advanced(old(bus)@, final(bus)@, 3),
{
    let address = cpu.next_u16(bus);
    if jump_taken(cpu, condition) {
        cpu.registers.pc = address;
        bus.generic_cycle();
    }
}

/// JR e or JR cc,e - relative jump
pub fn jr(condition: Option<Flag>, cpu: &mut CPU, bus: &mut Bus)
    requires
        old(bus).wf(),
        old(bus)@.room(2),
    ensures
        final(bus).wf(),
        (*final(cpu), final(bus)@) == jr_spec(condition, *old(cpu), old(bus)@),
        advanced(old(bus)@, final(bus)@, 2),
{
    let offset = cpu.next_u8(bus);
    let offset_u16 = sign_extend_byte(offset);
    let address = cpu.registers.pc.wrapping_add(offset_u16);
    if jump_taken(cpu, condition) {
        cpu.registers.pc = address;
        bus.generic_cycle();
    }
}

/// JP HL - jump to address in HL
pub fn jp_hl(cpu: &mut CPU)
    ensures
        *final(cpu) == jp_hl_spec(*old(cpu)),
{
    cpu.registers.pc = cpu.registers.get_r16(Reg16::HL);
}

/// RET or RET cc - return from subroutine
pub fn ret(condition: Option<Flag>, cpu: &mut CPU, bus: &mut Bus)
    requires
        old(bus).wf(),
        old(bus)@.room(4),
    ensures
        final(bus).wf(),
        (*final(cpu), final(bus)@) == ret_spec(condition, *old(cpu), old(bus)@),
        advanced(old(bus)@, final(bus)@, 4),
{
    if jump_taken(cpu, condition) {
        cpu.registers.pc = cpu.pop_stack(bus);
        bus.generic_cycle();
    }
    if condition.is_some() {
        bus.generic_cycle();
    }
}

/// RETI - return from interrupt
pub fn reti(cpu: &mut CPU, bus: &mut Bus)
    requires
        old(bus).wf(),
        old(bus)@.room(3),
    ensures
        final(bus).wf(),
        (*final(cpu), final(bus)@) == reti_spec(*old(cpu), old(bus)@),
        advanced(old(bus)@, final(bus)@, 3),
{
    bus.enable_interrupts();
    let address = cpu.pop_stack(bus);
    cpu.registers.pc = address;
    bus.generic_cycle();
}

/// CALL nn or CALL cc,nn - call subroutine
pub fn call(condition: Option<Flag>, cpu: &mut CPU, bus: &mut Bus)
    requires
        old(bus).wf(),
        old(bus)@.room(325),
        call_ok(condition, *old(cpu), old(bus)@),
    ensures
        final(bus).wf(),
        (*final(cpu), final(bus)@) == call_spec(condition, *old(cpu), old(bus)@),
        advanced(old(bus)@, final(bus)@, 325),
{
    let address = cpu.next_u16(bus);
    if jump_taken(cpu, condition) {
        let pc = cpu.registers.pc;
        cpu.push_stack(pc, bus);
        cpu.registers.pc = address;
        bus.generic_cycle();
    }
}

/// RST vec - restart to fixed address
pub fn rst(vector: u8, cpu: &mut CPU, bus: &mut Bus)
    requires
        old(bus).wf(),
        old(bus)@.room(323),
        rst_ok(*old(cpu), old(bus)@),
    ensures
        final(bus).wf(),
        (*final(cpu), final(bus)@) == rst_spec(vector, *old(cpu), old(bus)@),
        advanced(old(bus)@, final(bus)@, 323),
{
    bus.generic_cycle();
    let pc = cpu.registers.pc;
    cpu.push_stack(pc, bus);
    cpu.registers.pc = vector as u16;
}

} // verus!
