//! Miscellaneous instructions (PUSH, POP)

use crate::bus::{Bus, BusView};
use crate::cpu::{advanced, CPU};
use crate::operand::Reg16;
use vstd::prelude::*;

verus! {

/// PUSH rr: push the pair, then one extra M-cycle.
pub open spec fn push_spec(reg: Reg16, c: CPU, b: BusView) -> (CPU, BusView) {
    let (c1, b1) = c.push_spec(b, c.registers.r16(reg));
    (c1, b1.cycle())
}

/// The writes of a PUSH are ones the bus can take.
pub open spec fn push_ok(reg: Reg16, c: CPU, b: BusView) -> bool {
    c.push_ok(b, c.registers.r16(reg))
}

/// POP rr: pop a word into the pair (F keeps only its upper nibble).
pub open spec fn pop_spec(reg: Reg16, c: CPU, b: BusView) -> (CPU, BusView) {
    let (c1, b1, v) = c.pop_spec(b);
    (c1.with_regs(c1.registers.with_r16(reg, v)), b1)
}

/// PUSH rr - Push 16-bit register to stack
pub fn push(reg: Reg16, cpu: &mut CPU, bus: &mut Bus)
    requires
        old(bus).wf(),
        old(bus)@.room(323),
        push_ok(reg, *old(cpu), old(bus)@),
    ensures
        final(bus).wf(),
        (*final(cpu), final(bus)@) == push_spec(reg, *old(cpu), old(bus)@),
        advanced(old(bus)@, final(bus)@, 323),
{
    let value = cpu.registers.get_r16(reg);
    cpu.push_stack(value, bus);
    bus.generic_cycle();
}

/// POP rr - Pop 16-bit register from stack
pub fn pop(reg: Reg16, cpu: &mut CPU, bus: &mut Bus)
    requires
        old(bus).wf(),
        old(bus)@.room(2),
    ensures
        final(bus).wf(),
        (*final(cpu), final(bus)@) == pop_spec(reg, *old(cpu), old(bus)@),
        advanced(old(bus)@, final(bus)@, 2),
{
    let value = cpu.pop_stack(bus);
    cpu.registers.set_r16(reg, value);
}

} // verus!
