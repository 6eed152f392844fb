//! The CPU: fetch/execute state machine, stack and interrupt handling.

pub mod interrupts;
pub mod registers;
pub mod value;

use crate::bus::{is_ram, lemma_cycle, lemma_ram_read, lemma_ram_write, Bus, BusView};
use crate::instructions::alu::bcd_adjust_spec;
use crate::gpu::LY_ADDR;
use crate::instructions::cb::cb_target;
use crate::instructions::{instr_table, Instr};
use crate::operand::{Dst16, Dst8, Reg16, RmwOperand8, Src16, Src8};
use interrupts::{JOYPAD, LCDSTAT, SERIAL, TIMER, VBLANK};
use crate::registers::{
    hi_byte, join_bytes, lemma_word_split, lo_byte, split_word, word, wrap16, RegisterState,
    CF_MASK,
};
use vstd::prelude::*;

verus! {

/// Where the CPU is in its fetch/execute cycle.
#[derive(Debug, Clone, Default, Copy, PartialEq, Eq, Structural)]
pub enum CPUState {
    #[default]
    Boot,
    Running(Stage),
    Interrupted(Stage),
    Halted,
}

/// The half of an instruction the CPU does next.
#[derive(Default, Debug, Clone, Copy, PartialEq, Eq, Hash, Structural)]
pub enum Stage {
    #[default]
    Fetch,
    Execute,
}

// Global emu struct.
#[derive(Debug, Clone, Copy)]
pub struct CPU {
    pub registers: RegisterState,
    pub state: CPUState,
    pub opcode: u8,
    pub op_addr: u16,
}

/// Both cycle counters moved forward by the same amount, at most `max`.
pub open spec fn advanced(b0: BusView, b1: BusView, max: int) -> bool {
    &&& b0.mclock <= b1.mclock <= b0.mclock + max
    &&& b1.timer.mclock - b1.mclock == b0.timer.mclock - b0.mclock
}

/// A bus with its invariant and room for `n` more M-cycles.
pub open spec fn ready(b: BusView, n: int) -> bool {
    &&& b.inv()
    &&& b.room(n)
}

impl Default for CPU {
    /// The same as `CPU::new`.
    fn default() -> (r: Self)
        ensures
            r.registers == RegisterState::spec_zero(),
            r.opcode == 0,
            r.op_addr == 0,
            r.state == CPUState::Running(Stage::Fetch),
    {
        Self::new()
    }
}

impl CPU {
    /// The CPU as text: its registers.
    pub fn to_string(&self) -> (r: String)
        ensures
            r@ == self.registers.text(),
    {
        self.registers.to_string()
    }
}

/// The interrupt a set of fired bits services first (VBLANK, LCDSTAT,
/// TIMER, SERIAL, JOYPAD in that order): its bit and its handler address.
pub open spec fn interrupt_vector(fired: u8) -> Option<(u8, u16)> {
    if fired & VBLANK != 0 {
        Some((VBLANK, 0x40u16))
    } else if fired & LCDSTAT != 0 {
        Some((LCDSTAT, 0x48u16))
    } else if fired & TIMER != 0 {
        Some((TIMER, 0x50u16))
    } else if fired & SERIAL != 0 {
        Some((SERIAL, 0x58u16))
    } else if fired & JOYPAD != 0 {
        Some((JOYPAD, 0x60u16))
    } else {
        None
    }
}

/// The I/O register writes of the start-up state, in order.
pub open spec fn start_io_writes(b: BusView) -> BusView {
    b.write(0xFF06, 0x00).write(0xFF07, 0x00).write(0xFF0F, 0xE1).write(0xFF10, 0x80).write(
        0xFF11,
        0xBF,
    ).write(0xFF12, 0xF3).write(0xFF14, 0xBF).write(0xFF16, 0x3F).write(0xFF17, 0x00).write(
        0xFF19,
        0xBF,
    ).write(0xFF1A, 0x7F).write(0xFF1B, 0xFF).write(0xFF1C, 0x9F).write(0xFF1E, 0xBF).write(
        0xFF20,
        0xFF,
    ).write(0xFF21, 0x00).write(0xFF22, 0x00).write(0xFF23, 0xBF).write(0xFF24, 0x77).write(
        0xFF25,
        0xF3,
    ).write(0xFF26, 0xF1).write(0xFF40, 0x91).write(0xFF42, 0x00).write(0xFF43, 0x00).write(
        0xFF45,
        0x00,
    ).write(0xFF47, 0xFC).write(0xFF48, 0xFF).write(0xFF49, 0xFF).write(0xFF4A, 0x00).write(
        0xFF4B,
        0x00,
    ).write(0xFFFF, 0x00)
}

/// Of several pending interrupts the one of the lowest bit is serviced, at
/// 0x40 plus eight times its bit number; with none of the five bits set
/// nothing is.
pub proof fn law_interrupt_priority(fired: u8, k: u8)
    requires
        k < 5,
    ensures
        (fired & 0x1F == 0) <==> interrupt_vector(fired) is None,
        (fired & (1u8 << k) != 0 && fired & ((1u8 << k) - 1) as u8 == 0) ==> interrupt_vector(fired)
            == Some(((1u8 << k), (0x40 + 8 * k) as u16)),
{
    assert((fired & 0x1F == 0) <==> (fired & 1 == 0 && fired & 2 == 0 && fired & 4 == 0 && fired
        & 8 == 0 && fired & 16 == 0)) by (bit_vector);
    assert((k == 0 ==> 1u8 << k == 1) && (k == 1 ==> (1u8 << k == 2 && (fired & ((1u8 << k) - 1)
        as u8 == 0 ==> fired & 1 == 0))) && (k == 2 ==> (1u8 << k == 4 && (fired & ((1u8 << k)
        - 1) as u8 == 0 ==> fired & 1 == 0 && fired & 2 == 0))) && (k == 3 ==> (1u8 << k == 8 && (
    fired & ((1u8 << k) - 1) as u8 == 0 ==> fired & 1 == 0 && fired & 2 == 0 && fired & 4 == 0)))
        && (k == 4 ==> (1u8 << k == 16 && (fired & ((1u8 << k) - 1) as u8 == 0 ==> fired & 1 == 0
        && fired & 2 == 0 && fired & 4 == 0 && fired & 8 == 0)))) by (bit_vector);
}

/// HALT: executing it takes no M-cycle beyond its fetch; it leaves the CPU
/// halted when some interrupt is enabled, else back at a fetch (HALT then
/// takes one M-cycle in all). A halted CPU with no enabled interrupt
/// requested only lets one M-cycle pass per step.
pub proof fn law_halt(c: CPU, b: BusView)
    requires
        c.opcode == 0x76,
    ensures
        c.execute_spec(b) == (c, b, if b.int_enabled != 0 {
            CPUState::Halted
        } else {
            CPUState::Running(Stage::Fetch)
        }),
        (c.state == CPUState::Halted && b.int_enabled & b.int_flags == 0) ==> c.step_spec(b) == (
            c,
            b.cycle(),
        ),
{
}

impl CPU {
    /// The CPU with other registers.
    pub open spec fn with_regs(self, r: RegisterState) -> CPU {
        CPU { registers: r, ..self }
    }

    /// The CPU with PC set to `pc`.
    pub open spec fn with_pc(self, pc: u16) -> CPU {
        self.with_regs(RegisterState { pc, ..self.registers })
    }

    /// The CPU with SP set to `sp`.
    pub open spec fn with_sp(self, sp: u16) -> CPU {
        self.with_regs(RegisterState { sp, ..self.registers })
    }

    /// Read the byte at PC and advance PC: new CPU, new bus, byte.
    pub open spec fn next_u8_spec(self, b: BusView) -> (CPU, BusView, u8) {
        let (b1, v) = b.read_cycle(self.registers.pc);
        (self.with_pc(wrap16(self.registers.pc + 1)), b1, v)
    }

    /// Read a little-endian word at PC and advance PC by two.
    pub open spec fn next_u16_spec(self, b: BusView) -> (CPU, BusView, u16) {
        let (c1, b1, lo) = self.next_u8_spec(b);
        let (c2, b2, hi) = c1.next_u8_spec(b1);
        (c2, b2, word(hi, lo))
    }

    /// Push a word: the high byte goes to SP-1, the low byte to SP-2.
    pub open spec fn push_spec(self, b: BusView, value: u16) -> (CPU, BusView) {
        let sp1 = wrap16(self.registers.sp - 1);
        let b1 = b.write_cycle(sp1, hi_byte(value));
        let sp2 = wrap16(sp1 - 1);
        let b2 = b1.write_cycle(sp2, lo_byte(value));
        (self.with_sp(sp2), b2)
    }

    /// Both writes of a push are ones the bus can take.
    pub open spec fn push_ok(self, b: BusView, value: u16) -> bool {
        let sp1 = wrap16(self.registers.sp - 1);
        let b1 = b.write_cycle(sp1, hi_byte(value));
        let sp2 = wrap16(sp1 - 1);
        b.write_cycle_ok(sp1, hi_byte(value)) && b1.write_cycle_ok(sp2, lo_byte(value))
    }

    /// Pop a word: the low byte from SP, the high byte from SP+1.
    pub open spec fn pop_spec(self, b: BusView) -> (CPU, BusView, u16) {
        let (b1, lo) = b.read_cycle(self.registers.sp);
        let sp1 = wrap16(self.registers.sp + 1);
        let (b2, hi) = b1.read_cycle(sp1);
        (self.with_sp(wrap16(sp1 + 1)), b2, word(hi, lo))
    }

    /// The same CPU in another state.
    pub open spec fn with_state(self, s: CPUState) -> CPU {
        CPU { state: s, ..self }
    }

    /// M1, the fetch: read the opcode at PC (one M-cycle) and remember it
    /// with its address; if an enabled interrupt is pending while interrupts
    /// are on, PC stays and the CPU is to service it, else PC moves past the
    /// opcode and the CPU is to execute it. New CPU, new bus, next state.
    pub open spec fn fetch_spec(self, b: BusView) -> (CPU, BusView, CPUState) {
        let pc = self.registers.pc;
        let (b1, opcode) = b.read_cycle(pc);
        let c1 = CPU { opcode, op_addr: pc, ..self };
        if b1.ime != 0 && b1.int_enabled & b1.int_flags != 0 {
            (c1, b1, CPUState::Interrupted(Stage::Fetch))
        } else {
            (c1.with_pc(wrap16(pc + 1)), b1, CPUState::Running(Stage::Execute))
        }
    }

    /// M2, the execute: run the instruction of the fetched opcode, then go
    /// back to fetching; HALT halts instead while some interrupt is enabled.
    ///
    /// HALT costs one M-cycle, that of its fetch (the 4 T-cycles of the
    /// opcode timing table), and executes in no time. With an interrupt
    /// enabled (IE not zero) the CPU stays `Halted`, one M-cycle a step,
    /// until an enabled interrupt is requested; with none enabled nothing
    /// could ever wake it, and it goes straight back to fetching, so HALT
    /// takes just its one M-cycle (`law_halt`).
    pub open spec fn execute_spec(self, b: BusView) -> (CPU, BusView, CPUState) {
        let instr = instr_table(self.opcode);
        let (c1, b1) = instr.run_spec(self, b);
        (c1, b1, if instr is Halt && b.int_enabled != 0 {
            CPUState::Halted
        } else {
            CPUState::Running(Stage::Fetch)
        })
    }

    /// The fetched opcode is one the CPU can execute here.
    pub open spec fn execute_ok(self, b: BusView) -> bool {
        instr_table(self.opcode).run_ok(self, b)
    }

    /// The bus once interrupts are off and an M-cycle has passed: the point
    /// where servicing an interrupt reads IE and IF and pushes PC.
    pub open spec fn service_start(b: BusView) -> BusView {
        BusView { ime: 0, ..b }.cycle()
    }

    /// Servicing an interrupt: interrupts off, one M-cycle, PC pushed, the
    /// pending enabled interrupt of highest priority acknowledged and its
    /// vector jumped to, one more M-cycle, then a fetch.
    pub open spec fn service_spec(self, b: BusView) -> (CPU, BusView, CPUState) {
        let b1 = CPU::service_start(b);
        let fired = b1.int_enabled & b1.int_flags;
        let (c2, b2) = self.push_spec(b1, self.registers.pc);
        let (c3, b3) = match interrupt_vector(fired) {
            Some((flag, vector)) => (
                c2.with_pc(vector),
                BusView { int_flags: b2.int_flags & !flag, ..b2 },
            ),
            None => (c2, b2),
        };
        c3.fetch_spec(b3.cycle())
    }

    /// Servicing is defined: the CPU stopped at a fetch or halted, and the
    /// push of PC writes where the bus can take it.
    pub open spec fn service_ok(self, b: BusView) -> bool {
        &&& (self.state == CPUState::Interrupted(Stage::Fetch) || self.state == CPUState::Halted)
        &&& self.push_ok(CPU::service_start(b), self.registers.pc)
    }

    /// The start-up state the boot ROM leaves: registers, DIV's counter and
    /// the I/O registers it programs.
    pub open spec fn start_values_spec(self, b: BusView) -> (CPU, BusView) {
        let regs = RegisterState {
            a: 0x11,
            f: 0xb0,
            b: 0x00,
            c: 0x13,
            d: 0x00,
            e: 0xd8,
            h: 0x01,
            l: 0x4d,
            sp: 0xfffe,
            pc: 0x100,
        };
        let b0 = BusView { in_bios: 1, timer: b.timer.with_internal(0x1ea0), ..b };
        (self.with_regs(regs), start_io_writes(b0))
    }

    /// One step of the CPU state machine: the new CPU (its state included)
    /// and the new bus.
    pub open spec fn step_spec(self, b: BusView) -> (CPU, BusView) {
        match self.state {
            CPUState::Boot => (self.with_state(CPUState::Running(Stage::Fetch)), b),
            CPUState::Running(Stage::Fetch) => {
                let (c1, b1) = if b.rom_start_signal {
                    self.start_values_spec(BusView { rom_start_signal: false, ..b })
                } else {
                    (self, b)
                };
                let (c2, b2, s) = c1.fetch_spec(b1);
                (c2.with_state(s), b2)
            },
            CPUState::Running(Stage::Execute) => {
                let (c1, b1, s) = self.execute_spec(b);
                (c1.with_state(s), b1)
            },
            CPUState::Interrupted(_) => {
                let (c1, b1, s) = self.service_spec(b);
                (c1.with_state(s), b1)
            },
            CPUState::Halted => if b.int_enabled & b.int_flags != 0 {
                let (c1, b1, s) = if b.ime != 0 {
                    self.service_spec(b)
                } else {
                    self.fetch_spec(b)
                };
                (c1.with_state(s), b1)
            } else {
                (self, b.cycle())
            },
        }
    }

    /// A step is defined: the two cycle counters agree, the instruction to
    /// execute is a valid one whose writes the bus can take, and an
    /// interrupt is serviced only from a fetch or a halt.
    pub open spec fn step_ok(self, b: BusView) -> bool {
        &&& b.mclock == b.timer.mclock
        &&& match self.state {
            CPUState::Running(Stage::Execute) => self.execute_ok(b),
            CPUState::Interrupted(_) => self.service_ok(b),
            CPUState::Halted => (b.int_enabled & b.int_flags != 0 && b.ime != 0) ==> self.service_ok(
                b,
            ),
            _ => true,
        }
    }

    /// A CPU about to fetch, all registers zero.
    pub fn new() -> (r: Self)
        ensures
            r.registers == RegisterState::spec_zero(),
            r.opcode == 0,
            r.op_addr == 0,
            r.state == CPUState::Running(Stage::Fetch),
    {
        CPU {
            registers: RegisterState::new(),
            opcode: 0,
            op_addr: 0,
            state: CPUState::Running(Stage::Fetch),
        }
    }

    /// Read the byte at PC and advance PC.
    pub fn next_u8(&mut self, bus: &mut Bus) -> (r: u8)
        requires
            old(bus).wf(),
            old(bus)@.room(1),
        ensures
            final(bus).wf(),
            (*final(self), final(bus)@, r) == old(self).next_u8_spec(old(bus)@),
            advanced(old(bus)@, final(bus)@, 1),
    {
        let addr = self.registers.pc;
        self.registers.pc = self.registers.pc.wrapping_add(1);
        bus.read_cycle(addr)
    }

    /// Read a little-endian word at PC and advance PC by two.
    pub fn next_u16(&mut self, bus: &mut Bus) -> (r: u16)
        requires
            old(bus).wf(),
            old(bus)@.room(2),
        ensures
            final(bus).wf(),
            (*final(self), final(bus)@, r) == old(self).next_u16_spec(old(bus)@),
            advanced(old(bus)@, final(bus)@, 2),
    {
        // Little endianess means LSB comes first.
        let lo = self.next_u8(bus);
        let hi = self.next_u8(bus);
        join_bytes(hi, lo)
    }

    /// Push a word onto the stack.
    pub fn push_stack(&mut self, value: u16, bus: &mut Bus)
        requires
            old(bus).wf(),
            old(bus)@.room(322),
            old(self).push_ok(old(bus)@, value),
        ensures
            final(bus).wf(),
            (*final(self), final(bus)@) == old(self).push_spec(old(bus)@, value),
            advanced(old(bus)@, final(bus)@, 322),
    {
        let (hi, lo) = split_word(value);
        self.registers.sp = self.registers.sp.wrapping_sub(1);
        bus.write_cycle(self.registers.sp, hi);
        self.registers.sp = self.registers.sp.wrapping_sub(1);
        bus.write_cycle(self.registers.sp, lo);
    }

    /// Pop a word from the stack.
    pub fn pop_stack(&mut self, bus: &mut Bus) -> (r: u16)
        requires
            old(bus).wf(),
            old(bus)@.room(2),
        ensures
            final(bus).wf(),
            (*final(self), final(bus)@, r) == old(self).pop_spec(old(bus)@),
            advanced(old(bus)@, final(bus)@, 2),
    {
        let lo = bus.read_cycle(self.registers.sp);
        self.registers.sp = self.registers.sp.wrapping_add(1);
        let hi = bus.read_cycle(self.registers.sp);
        self.registers.sp = self.registers.sp.wrapping_add(1);
        join_bytes(hi, lo)
    }

    /// Decimal-adjust `value` after a BCD addition (N clear) or subtraction
    /// (N set), updating C, Z and H; returns the adjusted value.
    #[verifier::spinoff_prover]
    #[verifier::rlimit(60)]
    pub fn bcd_adjust(&mut self, value: u8) -> (r: u8)
        ensures
            (final(self).registers, r) == bcd_adjust_spec(old(self).registers, value),
            final(self).state == old(self).state,
            final(self).opcode == old(self).opcode,
            final(self).op_addr == old(self).op_addr,
    {
        let mut value = value;
        if self.registers.flg_nn() {
            if self.registers.flg_c() || value > 0x99 {
                value = value.wrapping_add(0x60);
                proof {
                    crate::registers::lemma_update_flag(self.registers.f, CF_MASK, true);
                }
                self.registers.set_cf(true);
            }
            if self.registers.flg_h() || (value & 0x0F) > 0x09 {
                proof {
                    crate::registers::lemma_low_nibble(value);
                }
                value = value.wrapping_add(0x6);
            } else {
                proof {
                    crate::registers::lemma_low_nibble(value);
                }
            }
        } else {
            if self.registers.flg_c() {
                value = value.wrapping_sub(0x60);
            }
            if self.registers.flg_h() {
                value = value.wrapping_sub(0x6);
            }
        }
        self.registers.set_zf(value == 0);
        self.registers.set_hf(false);
        value
    }

    /// Whether an enabled interrupt is pending while interrupts are on.
    pub fn interrupt_detected(&mut self, bus: &mut Bus) -> (r: bool)
        ensures
            r == (old(bus).ime != 0 && (old(bus).int_enabled & old(bus).int_flags) != 0),
            *final(self) == *old(self),
            final(bus)@ == old(bus)@,
            final(bus).gpu.framebuffer == old(bus).gpu.framebuffer,
    {
        bus.ime != 0 && (bus.int_enabled & bus.int_flags) != 0
    }

    /// M1: fetch the opcode at PC; the state to go to next.
    pub fn fetch_op(&mut self, bus: &mut Bus) -> (r: CPUState)
        requires
            old(bus).wf(),
            old(bus)@.room(1),
        ensures
            final(bus).wf(),
            (*final(self), final(bus)@, r) == old(self).fetch_spec(old(bus)@),
            advanced(old(bus)@, final(bus)@, 1),
            final(bus).mclock == old(bus).mclock + 1,
    {
        // M1: fetch
        let opcode = bus.read_cycle(self.registers.pc);
        self.op_addr = self.registers.pc;
        self.opcode = opcode;
        if self.interrupt_detected(bus) {
            CPUState::Interrupted(Stage::Fetch)
        } else {
            self.registers.pc = self.registers.pc.wrapping_add(1);
            CPUState::Running(Stage::Execute)
        }
    }

    /// M2: execute the fetched opcode; the state to go to next.
    pub fn execute_op(&mut self, bus: &mut Bus) -> (r: CPUState)
        requires
            old(bus).wf(),
            old(bus)@.room(400),
            old(self).execute_ok(old(bus)@),
        ensures
            final(bus).wf(),
            (*final(self), final(bus)@, r) == old(self).execute_spec(old(bus)@),
            advanced(old(bus)@, final(bus)@, 400),
    {
        // M2: execute
        let instr = Instr::from(self.opcode).run(self, bus);
        match instr {
            // Halt until an enabled interrupt is requested; with none
            // enabled the wait could never end.
            Instr::Halt if bus.int_enabled != 0 => CPUState::Halted,
            _ => CPUState::Running(Stage::Fetch),
        }
    }

    /// Service the pending interrupt of highest priority: push PC, jump to
    /// its handler, then fetch there.
    pub fn handle_interrupts(&mut self, bus: &mut Bus) -> (r: CPUState)
        requires
            old(bus).wf(),
            old(bus)@.room(325),
            old(self).service_ok(old(bus)@),
        ensures
            final(bus).wf(),
            (*final(self), final(bus)@, r) == old(self).service_spec(old(bus)@),
            advanced(old(bus)@, final(bus)@, 325),
            final(bus).mclock > old(bus).mclock,
    {
        bus.disable_interrupts();
        bus.generic_cycle();
        let fired = bus.int_enabled & bus.int_flags;
        let pc = self.registers.pc;
        self.push_stack(pc, bus);
        if fired & VBLANK != 0 {
            bus.ack_interrupt(VBLANK);
            self.registers.pc = 0x40;
        } else if fired & LCDSTAT != 0 {
            bus.ack_interrupt(LCDSTAT);
            self.registers.pc = 0x48;
        } else if fired & TIMER != 0 {
            bus.ack_interrupt(TIMER);
            self.registers.pc = 0x50;
        } else if fired & SERIAL != 0 {
            bus.ack_interrupt(SERIAL);
            self.registers.pc = 0x58;
        } else if fired & JOYPAD != 0 {
            bus.ack_interrupt(JOYPAD);
            self.registers.pc = 0x60;
        }
        bus.generic_cycle();
        self.fetch_op(bus)
    }

    /// Load the start-up state the boot ROM would have left.
    fn load_start_values(&mut self, bus: &mut Bus)
        requires
            old(bus).wf(),
        ensures
            final(bus).wf(),
            (*final(self), final(bus)@) == old(self).start_values_spec(old(bus)@),
            final(bus).mclock == old(bus).mclock,
            final(bus).timer.mclock == old(bus).timer.mclock,
    {
        self.registers.a = 0x11;
        self.registers.f = 0xb0;
        self.registers.b = 0x00;
        self.registers.c = 0x13;
        self.registers.d = 0x00;
        self.registers.e = 0xd8;
        self.registers.h = 0x01;
        self.registers.l = 0x4d;
        self.registers.sp = 0xfffe;
        self.registers.pc = 0x100;
        bus.in_bios = 1;
        bus.timer.internal = 0x1ea0;
        bus.write(0xFF06, 0x00);  // TMA
        bus.write(0xFF07, 0x00);  // TAC
        bus.write(0xFF0F, 0xE1);
        bus.write(0xFF10, 0x80);  // NR10
        bus.write(0xFF11, 0xBF);  // NR11
        bus.write(0xFF12, 0xF3);  // NR12
        bus.write(0xFF14, 0xBF);  // NR14
        bus.write(0xFF16, 0x3F);  // NR21
        bus.write(0xFF17, 0x00);  // NR22
        bus.write(0xFF19, 0xBF);  // NR24
        bus.write(0xFF1A, 0x7F);  // NR30
        bus.write(0xFF1B, 0xFF);  // NR31
        bus.write(0xFF1C, 0x9F);  // NR32
        bus.write(0xFF1E, 0xBF);  // NR33
        bus.write(0xFF20, 0xFF);  // NR41
        bus.write(0xFF21, 0x00);  // NR42
        bus.write(0xFF22, 0x00);  // NR43
        bus.write(0xFF23, 0xBF);  // NR30
        bus.write(0xFF24, 0x77);  // NR50
        bus.write(0xFF25, 0xF3);  // NR51
        bus.write(0xFF26, 0xF1);  // NR52
        bus.write(0xFF40, 0x91);  // LCDC
        bus.write(0xFF42, 0x00);  // SCY
        bus.write(0xFF43, 0x00);  // SCX
        bus.write(0xFF45, 0x00);  // LYC
        bus.write(0xFF47, 0xFC);  // BGP
        bus.write(0xFF48, 0xFF);  // OBP0
        bus.write(0xFF49, 0xFF);  // OBP1
        bus.write(0xFF4A, 0x00);  // WY
        bus.write(0xFF4B, 0x00);  // WX
        bus.write(0xFFFF, 0x00);  // IE
    }

    /// Advance the CPU state machine by one step.
    pub fn step(&mut self, bus: &mut Bus)
        requires
            old(bus).wf(),
            old(bus)@.room(400),
            old(self).step_ok(old(bus)@),
        ensures
            final(bus).wf(),
            (*final(self), final(bus)@) == old(self).step_spec(old(bus)@),
            advanced(old(bus)@, final(bus)@, 400),
            old(self).state is Boot || old(self).state == CPUState::Running(Stage::Execute)
                || final(bus).mclock > old(bus).mclock,
    {
        match self.state {
            CPUState::Boot => {
                self.state = CPUState::Running(Stage::Fetch);
            },
            CPUState::Running(Stage::Fetch) => {
                if bus.rom_start_signal {
                    bus.rom_start_signal = false;
                    self.load_start_values(bus);
                }
                let s = self.fetch_op(bus);
                self.state = s;
            },
            CPUState::Running(Stage::Execute) => {
                let s = self.execute_op(bus);
                self.state = s;
            },
            CPUState::Interrupted(_) => {
                let s = self.handle_interrupts(bus);
                self.state = s;
            },
            CPUState::Halted => {
                if (bus.int_enabled & bus.int_flags) != 0 {
                    let s = if bus.ime != 0 {
                        self.handle_interrupts(bus)
                    } else {
                        self.fetch_op(bus)
                    };
                    self.state = s;
                } else {
                    bus.generic_cycle();
                }
            },
        }
    }
}

/// No write of a push from stack pointer `sp` (to SP-1, then SP-2) is one
/// to LY.
pub open spec fn push_clear(sp: u16) -> bool {
    sp != 0xFF45 && sp != 0xFF46
}

/// A byte that no M-cycle changes: ROM, external and work RAM (with its
/// echo), and high RAM, which the PPU and timer never touch.
pub open spec fn unchanging(address: u16) -> bool {
    address < 0x8000 || (0xA000 <= address <= 0xFDFF) || (0xFF80 <= address <= 0xFFFE)
}

/// Whether the byte at `address` is `unchanging`.
fn is_unchanging(address: u16) -> (r: bool)
    ensures
        r == unchanging(address),
{
    address < 0x8000 || (0xA000 <= address && address <= 0xFDFF) || (0xFF80 <= address
        && address <= 0xFFFE)
}

/// An `unchanging` byte reads the same after an M-cycle.
pub proof fn lemma_unchanging_read(b: BusView, address: u16)
    requires
        unchanging(address),
    ensures
        b.cycle().read(address) == b.read(address),
{
    reveal(BusView::cycle);
    reveal(BusView::read);
}

impl CPU {
    /// The fetched instruction is valid, and no write it makes can be one to
    /// LY: the only write a bus refuses (`BusView::write_ok`). Where the
    /// write address comes from operand bytes, they must be `unchanging`
    /// ones, so that the M-cycles before their reads cannot change them.
    /// This does not follow the PPU through the instruction, so every write
    /// that might reach LY is refused here, whether or not its value fits.
    pub open spec fn execute_clear(self, b: BusView) -> bool {
        let regs = self.registers;
        let pc = regs.pc;
        match instr_table(self.opcode) {
            Instr::Invalid => false,
            Instr::Ld8(dst, src) | Instr::LdInc(dst, src) | Instr::LdDec(dst, src) => match dst {
                Dst8::Reg(_) => true,
                Dst8::Indirect(r) => regs.r16(r) != LY_ADDR,
                Dst8::HighMemC => regs.c != 0x44,
                Dst8::HighMemImm => src is Reg && unchanging(pc) && b.read(pc) != 0x44,
                Dst8::MemImm => src is Reg && pc < 0xFFFF && unchanging(pc) && unchanging(
                    (pc + 1) as u16,
                ) && word(b.read((pc + 1) as u16), b.read(pc)) != LY_ADDR,
            },
            Instr::Ld16(dst, src) => match dst {
                Dst16::Reg(_) => true,
                Dst16::MemImm => src is Reg && pc < 0xFFFF && unchanging(pc) && unchanging(
                    (pc + 1) as u16,
                ) && {
                    let a = word(b.read((pc + 1) as u16), b.read(pc));
                    a != LY_ADDR && a != 0xFF43
                },
            },
            Instr::Inc8(op) | Instr::Dec8(op) => match op {
                RmwOperand8::Reg(_) => true,
                RmwOperand8::Indirect(r) => !(r is AF) && regs.r16(r) != LY_ADDR,
            },
            Instr::Cb => regs.r16(Reg16::HL) != LY_ADDR,
            Instr::Call(_) | Instr::Rst(_) | Instr::Push(_) => push_clear(regs.sp),
            _ => true,
        }
    }

    /// The step is clear: the two cycle counters agree, and whatever the
    /// step executes or pushes is `execute_clear` or `push_clear`.
    pub open spec fn step_clear(self, b: BusView) -> bool {
        &&& b.mclock == b.timer.mclock
        &&& match self.state {
            CPUState::Boot | CPUState::Running(Stage::Fetch) => true,
            CPUState::Running(Stage::Execute) => self.execute_clear(b),
            CPUState::Interrupted(Stage::Fetch) => push_clear(self.registers.sp),
            CPUState::Interrupted(Stage::Execute) => false,
            CPUState::Halted => (b.int_enabled & b.int_flags != 0 && b.ime != 0) ==> push_clear(
                self.registers.sp,
            ),
        }
    }

    /// Whether the step is clear (`step_clear`), a test that needs no
    /// step to be taken.
    pub fn step_is_clear(&self, bus: &Bus) -> (r: bool)
        requires
            bus.wf(),
        ensures
            r == self.step_clear(bus@),
    {
        if bus.mclock() != bus.timer.mclock {
            return false;
        }
        let sp_clear = self.registers.sp != 0xFF45 && self.registers.sp != 0xFF46;
        match self.state {
            CPUState::Boot | CPUState::Running(Stage::Fetch) => true,
            CPUState::Running(Stage::Execute) => self.execute_is_clear(bus),
            CPUState::Interrupted(Stage::Fetch) => sp_clear,
            CPUState::Interrupted(Stage::Execute) => false,
            CPUState::Halted => !((bus.int_enabled & bus.int_flags) != 0 && bus.ime != 0) || sp_clear,
        }
    }

    /// Whether the fetched instruction is clear (`execute_clear`).
    fn execute_is_clear(&self, bus: &Bus) -> (r: bool)
        requires
            bus.wf(),
        ensures
            r == self.execute_clear(bus@),
    {
        let regs = &self.registers;
        let pc = regs.pc;
        match Instr::from(self.opcode) {
            Instr::Invalid => false,
            Instr::Ld8(dst, src) | Instr::LdInc(dst, src) | Instr::LdDec(dst, src) => match dst {
                Dst8::Reg(_) => true,
                Dst8::Indirect(r) => regs.get_r16(r) != LY_ADDR,
                Dst8::HighMemC => regs.c != 0x44,
                Dst8::HighMemImm => matches!(src, Src8::Reg(_)) && is_unchanging(pc) && bus.read(pc)
                    != 0x44,
                Dst8::MemImm => matches!(src, Src8::Reg(_)) && pc < 0xFFFF && is_unchanging(pc)
                    && is_unchanging(pc + 1) && join_bytes(bus.read(pc + 1), bus.read(pc)) != LY_ADDR,
            },
            Instr::Ld16(dst, src) => match dst {
                Dst16::Reg(_) => true,
                Dst16::MemImm => {
                    if matches!(src, Src16::Reg(_)) && pc < 0xFFFF && is_unchanging(pc) && is_unchanging(
                        pc + 1,
                    ) {
                        let a = join_bytes(bus.read(pc + 1), bus.read(pc));
                        a != LY_ADDR && a != 0xFF43
                    } else {
                        false
                    }
                },
            },
            Instr::Inc8(op) | Instr::Dec8(op) => match op {
                RmwOperand8::Reg(_) => true,
                RmwOperand8::Indirect(r) => !matches!(r, Reg16::AF) && regs.get_r16(r) != LY_ADDR,
            },
            Instr::Cb => regs.get_r16(Reg16::HL) != LY_ADDR,
            Instr::Call(_) | Instr::Rst(_) | Instr::Push(_) => regs.sp != 0xFF45 && regs.sp != 0xFF46,
            _ => true,
        }
    }
}

/// A clear step is a defined one.
pub proof fn lemma_step_clear(c: CPU, b: BusView)
    requires
        c.step_clear(b),
    ensures
        c.step_ok(b),
{
    let pc = c.registers.pc;
    if c.state == CPUState::Running(Stage::Execute) {
        if pc < 0xFFFF && unchanging(pc) && unchanging((pc + 1) as u16) {
            lemma_unchanging_read(b, pc);
            lemma_unchanging_read(b, (pc + 1) as u16);
            lemma_unchanging_read(b.cycle(), (pc + 1) as u16);
            assert(wrap16(pc + 1) == (pc + 1) as u16);
            assert(c.next_u16_spec(b).2 == word(b.read((pc + 1) as u16), b.read(pc)));
        }
        if unchanging(pc) {
            lemma_unchanging_read(b, pc);
            assert(c.next_u8_spec(b).2 == b.read(pc));
        }
        match instr_table(c.opcode) {
            Instr::Ld8(dst, src) | Instr::LdInc(dst, src) | Instr::LdDec(dst, src) => {
                let (c1, b1, v) = src.read_spec(c, b);
                assert(c1.registers.r16(Reg16::HL) == c.registers.r16(Reg16::HL));
                assert(c1.registers.r16(Reg16::BC) == c.registers.r16(Reg16::BC));
                assert(c1.registers.r16(Reg16::DE) == c.registers.r16(Reg16::DE));
                assert(c1.registers.r16(Reg16::AF) == c.registers.r16(Reg16::AF));
                assert(c1.registers.c == c.registers.c);
                assert(dst.write_ok(c1, b1, v));
                assert(crate::instructions::ld::ld8_ok(dst, src, c, b));
            },
            Instr::Ld16(dst, src) => {
                let (c1, b1, v) = src.read_spec(c, b);
                if dst is MemImm {
                    let a = word(b.read((pc + 1) as u16), b.read(pc));
                    assert(wrap16(a + 1) != LY_ADDR);
                }
                assert(dst.write_ok(c1, b1, v));
                assert(crate::instructions::ld::ld16_ok(dst, src, c, b));
            },
            Instr::Inc8(op) => {
                assert(crate::instructions::alu::inc8_ok(op, c, b));
            },
            Instr::Dec8(op) => {
                assert(crate::instructions::alu::dec8_ok(op, c, b));
            },
            Instr::Cb => {
                let (c1, b1, opcode) = c.next_u8_spec(b);
                crate::instructions::cb::lemma_cb_apply_keeps_hl(
                    opcode,
                    cb_target(opcode).read_spec(c1, b1).1,
                    c1.registers,
                );
                assert(crate::instructions::cb::cb_ok(c, b));
            },
            Instr::Call(flag) => {
                assert(crate::instructions::jp::call_ok(flag, c, b));
            },
            Instr::Rst(_) => {
                assert(crate::instructions::jp::rst_ok(c, b));
            },
            Instr::Push(r) => {
                assert(crate::instructions::misc::push_ok(r, c, b));
            },
            _ => {},
        }
        assert(c.execute_ok(b));
    }
}

/// A byte with its two nibbles exchanged.
pub open spec fn nibbles_swapped(byte: u8) -> u8 {
    ((byte % 16) * 16 + byte / 16) as u8
}

/// Swap the upper and lower nibbles of a byte.
#[inline]
pub fn swapped_nibbles(byte: u8) -> (r: u8)
    ensures
        r == nibbles_swapped(byte),
{
    let hi = byte >> 4u8;
    let lo = byte & 0xF;
    assert(((byte & 0xF) << 4u8) | (byte >> 4u8) == ((byte % 16) * 16 + byte / 16) as u8) by (bit_vector);
    (lo << 4u8) | hi
}


/// Servicing an interrupt with the stack in RAM: interrupts are turned off,
/// the interrupted PC is pushed (high byte at SP-1, low byte at SP-2, SP
/// two lower), and the CPU goes on with the first instruction of the
/// handler of the pending enabled interrupt of highest priority (the one
/// `law_interrupt_priority` picks, at 0x40, 0x48, 0x50, 0x58 or 0x60),
/// fetched and ready to execute.
pub proof fn law_service(c: CPU, b: BusView)
    requires
        b.inv(),
        b.room(10),
        is_ram(wrap16(c.registers.sp - 1)),
        is_ram(wrap16(c.registers.sp - 2)),
        interrupt_vector(CPU::service_start(b).int_enabled & CPU::service_start(b).int_flags) is Some,
    ensures
        ({
            let b1 = CPU::service_start(b);
            let vector = (interrupt_vector(b1.int_enabled & b1.int_flags)->0).1;
            let (c3, b3, state) = c.service_spec(b);
            let pc = c.registers.pc;
            &&& b3.ime == 0
            &&& c3.op_addr == vector
            &&& c3.registers.pc == vector + 1
            &&& state == CPUState::Running(Stage::Execute)
            &&& c3.registers.sp == wrap16(c.registers.sp - 2)
            &&& b3.memory[wrap16(c.registers.sp - 1) as int] == hi_byte(pc)
            &&& b3.memory[wrap16(c.registers.sp - 2) as int] == lo_byte(pc)
        }),
{
    let b0 = BusView { ime: 0, ..b };
    let b1 = CPU::service_start(b);
    reveal(BusView::cycle);
    lemma_cycle(b0);
    law_push_pop(c, b1, c.registers.pc);
    let (c2, b2) = c.push_spec(b1, c.registers.pc);
    let sp1 = wrap16(c.registers.sp - 1);
    let sp2 = wrap16(sp1 - 1);
    lemma_cycle(b1);
    lemma_ram_write(b1.cycle(), sp1, hi_byte(c.registers.pc));
    let bw = b1.cycle().write(sp1, hi_byte(c.registers.pc));
    lemma_cycle(bw);
    lemma_ram_write(bw.cycle(), sp2, lo_byte(c.registers.pc));
    lemma_ram_read(b2, sp1);
    lemma_ram_read(b2, sp2);
    let (flag, vector) = interrupt_vector(b1.int_enabled & b1.int_flags)->0;
    let b2f = BusView { int_flags: b2.int_flags & !flag, ..b2 };
    lemma_cycle(b2f);
    lemma_cycle(b2f.cycle());
}

// ============================================================================
// Laws of the stack
// ============================================================================

/// Pushing a word onto a stack in RAM puts its high byte at SP-1 and its low
/// byte at SP-2 and takes two M-cycles; popping it again takes two more,
/// gives the word back and leaves the CPU as it was (SP included).
pub proof fn law_push_pop(c: CPU, b: BusView, value: u16)
    requires
        b.inv(),
        b.room(4),
        is_ram(wrap16(c.registers.sp - 1)),
        is_ram(wrap16(c.registers.sp - 2)),
    ensures
        ({
            let (c1, b1) = c.push_spec(b, value);
            let (c2, b2, r) = c1.pop_spec(b1);
            &&& r == value
            &&& c2 == c
            &&& c1.registers.sp == wrap16(c.registers.sp - 2)
            &&& b1.read(wrap16(c.registers.sp - 1)) == hi_byte(value)
            &&& b1.read(wrap16(c.registers.sp - 2)) == lo_byte(value)
            &&& b1.mclock == b.mclock + 2
            &&& b2.mclock == b.mclock + 4
        }),
        c.push_ok(b, value),
{
    let sp = c.registers.sp;
    let sp1 = wrap16(sp - 1);
    let sp2 = wrap16(sp1 - 1);
    assert(sp2 == wrap16(sp - 2));
    let b0 = b.cycle();
    lemma_cycle(b);
    lemma_ram_write(b0, sp1, hi_byte(value));
    let b1 = b0.write(sp1, hi_byte(value));
    let b1c = b1.cycle();
    lemma_cycle(b1);
    lemma_ram_write(b1c, sp2, lo_byte(value));
    let b2 = b1c.write(sp2, lo_byte(value));
    lemma_ram_read(b2, sp2);
    lemma_ram_read(b2, sp1);
    let b3 = b2.cycle();
    lemma_cycle(b2);
    lemma_ram_read(b3, sp2);
    assert(wrap16(sp2 + 1) == sp1);
    let b4 = b3.cycle();
    lemma_cycle(b3);
    lemma_ram_read(b4, sp1);
    lemma_word_split(value);
    assert(wrap16(sp1 + 1) == sp);
}

} // verus!
