//! Top-level emulator coordinator

use crate::bus::{initial_bus, Bus, BusView};
use crate::cpu::{advanced, lemma_step_clear, CPUState, Stage, CPU};
use crate::instructions::{instr_data_length, instr_table, lemma_length_bound, Instr};
use crate::registers::{join_bytes, word, RegisterState};
use crate::text::{append_hex, hex_text};
use vstd::prelude::*;

verus! {

/// A disassembled instruction with its address and operand data
#[derive(Clone, Copy, Debug, Default)]
pub struct InstrListing {
    pub instr: Instr,
    pub data: Option<u16>,
    pub addr: u16,
}

/// The operand data of `len` bytes after the opcode at `offset`: none for
/// no bytes, a byte, or a little-endian word; none where `mem` ends first.
pub open spec fn operand_data(mem: Seq<u8>, offset: int, len: nat) -> Option<u16> {
    if len == 0 {
        None
    } else if len == 1 {
        if offset + 1 < mem.len() {
            Some(mem[offset + 1] as u16)
        } else {
            None
        }
    } else {
        if offset + 3 <= mem.len() {
            Some(word(mem[offset + 2], mem[offset + 1]))
        } else {
            None
        }
    }
}

/// The listing of the instruction whose opcode is at `offset`.
pub open spec fn listing_at(mem: Seq<u8>, offset: nat) -> InstrListing {
    let instr = instr_table(mem[offset as int]);
    InstrListing {
        instr,
        data: operand_data(mem, offset as int, (instr.spec_length() - 1) as nat),
        addr: offset as u16,
    }
}

/// The listings of `mem` from `offset` on: each instruction, then the one
/// after its operand bytes, until the end of `mem`.
pub open spec fn listings_from(mem: Seq<u8>, offset: nat) -> Seq<InstrListing>
    decreases mem.len() + 5 - offset,
{
    if offset >= mem.len() {
        Seq::empty()
    } else {
        let next = offset + listing_at(mem, offset).instr.spec_length();
        seq![listing_at(mem, offset)] + listings_from(mem, next)
    }
}

impl InstrListing {
    /// `ADDR: INSTR` or `ADDR: INSTR (DATA)`, numbers in four hex digits.
    pub open spec fn text(self) -> Seq<char> {
        hex_text(self.addr as nat, 4) + ": "@ + self.instr.text() + match self.data {
            Some(d) => " ("@ + hex_text(d as nat, 4) + ")"@,
            None => Seq::empty(),
        }
    }

    /// The listing line.
    pub fn to_string(&self) -> (r: String)
        ensures
            r@ == self.text(),
    {
        let mut s = String::new();
        append_hex(&mut s, self.addr, 4);
        s.append(": ");
        s.append(self.instr.to_string().as_str());
        match self.data {
            Some(d) => {
                s.append(" (");
                append_hex(&mut s, d, 4);
                s.append(")");
            },
            None => {
                assert(s@ + Seq::<char>::empty() =~= s@);
            },
        }
        s
    }
}

/// Generate instruction listing from memory bytes
pub fn disassemble(mem: &[u8]) -> (r: Vec<InstrListing>)
    requires
        mem@.len() <= isize::MAX,
    ensures
        r@ == listings_from(mem@, 0),
{
    let mut listings: Vec<InstrListing> = Vec::new();
    let mut offset: usize = 0;
    while offset < mem.len()
        invariant
            mem@.len() <= isize::MAX,
            offset <= mem@.len() + 2,
            listings@ + listings_from(mem@, offset as nat) == listings_from(mem@, 0),
        decreases mem@.len() + 5 - offset,
    {
        let opcode = mem[offset];
        let instr = instr_table_at(opcode);
        let data_len = instr_data_length(opcode);
        proof {
            lemma_length_bound(opcode);
        }
        let data = if data_len == 0 {
            None
        } else if data_len == 1 {
            if offset + 1 < mem.len() {
                Some(mem[offset + 1] as u16)
            } else {
                None
            }
        } else {
            if offset + 3 <= mem.len() {
                Some(join_bytes(mem[offset + 2], mem[offset + 1]))
            } else {
                None
            }
        };
        let listing = InstrListing { instr, data, addr: offset as u16 };
        proof {
            assert(listing == listing_at(mem@, offset as nat));
            assert(listings@.push(listing) + listings_from(mem@, (offset + 1 + data_len) as nat)
                =~= listings@ + listings_from(mem@, offset as nat));
        }
        listings.push(listing);
        offset += 1 + data_len;
    }
    proof {
        assert(listings@ + listings_from(mem@, offset as nat) =~= listings@);
    }
    listings
}

/// The instruction of an opcode, as the decode table gives it.
fn instr_table_at(opcode: u8) -> (r: Instr)
    ensures
        r == instr_table(opcode),
{
    Instr::from(opcode)
}

/// The listing lines joined by newlines.
pub open spec fn listings_text(ls: Seq<InstrListing>) -> Seq<char>
    decreases ls.len(),
{
    if ls.len() == 0 {
        Seq::empty()
    } else if ls.len() == 1 {
        ls[0].text()
    } else {
        listings_text(ls.drop_last()) + "\n"@ + ls.last().text()
    }
}

/// Format instruction listings as a string
pub fn format_listings(listings: &[InstrListing]) -> (r: String)
    ensures
        r@ == listings_text(listings@),
{
    let mut s = String::new();
    let mut i: usize = 0;
    while i < listings.len()
        invariant
            i <= listings@.len(),
            s@ == listings_text(listings@.take(i as int)),
        decreases listings@.len() - i,
    {
        if i > 0 {
            s.append("\n");
        }
        s.append(listings[i].to_string().as_str());
        proof {
            let t = listings@.take(i + 1);
            assert(t.drop_last() =~= listings@.take(i as int));
            assert(t.last() == listings@[i as int]);
            if i == 0 {
                assert(Seq::<char>::empty() + t.last().text() =~= t.last().text());
            }
        }
        i += 1;
    }
    proof {
        assert(listings@.take(i as int) =~= listings@);
    }
    s
}

/// Older name of `disassemble`.
pub fn gen_il(mem: &[u8]) -> (r: Vec<InstrListing>)
    requires
        mem@.len() <= isize::MAX,
    ensures
        r@ == listings_from(mem@, 0),
{
    disassemble(mem)
}

/// Older name of `format_listings`.
pub fn str_il(il: &[InstrListing]) -> (r: String)
    ensures
        r@ == listings_text(il@),
{
    format_listings(il)
}

/// Top-level emulator state
pub struct Emu {
    pub cpu: CPU,
    pub bus: Bus,
}

/// Running from `(c, b)` until the cycle counter reaches `target`, taking at
/// most `fuel` steps: the CPU and bus at the end, or `None` when the fuel
/// runs out first or a step is not defined (an invalid opcode, a write the
/// PPU cannot take, a cycle counter about to overflow).
pub open spec fn run_to(c: CPU, b: BusView, target: usize, fuel: nat) -> Option<(CPU, BusView)>
    decreases fuel,
{
    if b.mclock >= target {
        Some((c, b))
    } else if fuel == 0 || !c.step_ok(b) || !b.room(400) {
        None
    } else {
        let (c1, b1) = c.step_spec(b);
        run_to(c1, b1, target, (fuel - 1) as nat)
    }
}

/// More fuel does not change a run that ends.
pub proof fn law_run_more_fuel(c: CPU, b: BusView, target: usize, fuel: nat, more: nat)
    requires
        run_to(c, b, target, fuel) is Some,
        fuel <= more,
    ensures
        run_to(c, b, target, more) == run_to(c, b, target, fuel),
    decreases fuel,
{
    if b.mclock < target {
        let (c1, b1) = c.step_spec(b);
        law_run_more_fuel(c1, b1, target, (fuel - 1) as nat, (more - 1) as nat);
    }
}

/// Where a run from `(c, b)` to `target` ends, if it does.
pub open spec fn run_result(c: CPU, b: BusView, target: usize) -> (CPU, BusView) {
    run_to(c, b, target, choose|fuel: nat| run_to(c, b, target, fuel) is Some).unwrap()
}

/// The run from `(c, b)` to `target` ends.
pub open spec fn run_ends(c: CPU, b: BusView, target: usize) -> bool {
    exists|fuel: nat| run_to(c, b, target, fuel) is Some
}

/// The CPU and bus after `n` steps from `(c, b)`.
pub open spec fn steps(c: CPU, b: BusView, n: nat) -> (CPU, BusView)
    decreases n,
{
    if n == 0 {
        (c, b)
    } else {
        let (c1, b1) = c.step_spec(b);
        steps(c1, b1, (n - 1) as nat)
    }
}

/// A step `run_until_checked` takes from `(c, b)`: the clock is below the
/// target, the step is clear (`CPU::step_clear`) and the clock has room.
pub open spec fn checked_step(c: CPU, b: BusView, target: usize) -> bool {
    &&& b.mclock < target
    &&& c.step_clear(b)
    &&& b.room(400)
}

/// Step `i` of a run from `(c, b)` is a checked one.
pub open spec fn checked_at(c: CPU, b: BusView, target: usize, i: nat) -> bool {
    let (ci, bi) = steps(c, b, i);
    checked_step(ci, bi, target)
}

/// The first `n` steps of a run from `(c, b)` are checked ones.
pub open spec fn checked_prefix(c: CPU, b: BusView, target: usize, n: nat) -> bool {
    forall|i: nat| i < n ==> #[trigger] checked_at(c, b, target, i)
}

/// One step more: `n + 1` steps are the step after `n` steps.
proof fn lemma_steps_last(c: CPU, b: BusView, n: nat)
    ensures
        steps(c, b, n + 1) == ({
            let (cn, bn) = steps(c, b, n);
            cn.step_spec(bn)
        }),
    decreases n,
{
    let (c1, b1) = c.step_spec(b);
    assert(steps(c, b, n + 1) == steps(c1, b1, n));
    if n > 0 {
        lemma_steps_last(c1, b1, (n - 1) as nat);
        assert(steps(c, b, n) == steps(c1, b1, (n - 1) as nat));
    } else {
        assert(steps(c1, b1, 0) == (c1, b1));
    }
}

/// A run whose first `n` steps are checked ones, and whose clock then
/// reached the target, is the run `run_to` gives `n` steps of fuel.
proof fn lemma_checked_run(c: CPU, b: BusView, target: usize, n: nat)
    requires
        checked_prefix(c, b, target, n),
        steps(c, b, n).1.mclock >= target,
    ensures
        run_to(c, b, target, n) == Some(steps(c, b, n)),
    decreases n,
{
    if n > 0 {
        assert(checked_at(c, b, target, 0));
        lemma_step_clear(c, b);
        let (c1, b1) = c.step_spec(b);
        assert forall|i: nat| i < n - 1 implies #[trigger] checked_at(c1, b1, target, i) by {
            assert(checked_at(c, b, target, i + 1));
        }
        lemma_checked_run(c1, b1, target, (n - 1) as nat);
    }
}

/// How far a step takes the CPU through its cycle: a boot or an execute
/// may take no time, but then the CPU goes on to a step that does.
spec fn phase(s: CPUState) -> int {
    match s {
        CPUState::Boot => 2,
        CPUState::Running(Stage::Execute) => 1,
        _ => 0,
    }
}

/// The first index of a listing at `pc`, if any.
pub open spec fn first_at(ls: Seq<InstrListing>, pc: u16) -> Option<int> {
    if exists|j: int|
        0 <= j < ls.len() && ls[j].addr == pc && forall|i: int| 0 <= i < j ==> ls[i].addr != pc {
        Some(
            choose|j: int|
                0 <= j < ls.len() && ls[j].addr == pc && forall|i: int|
                    0 <= i < j ==> ls[i].addr != pc,
        )
    } else {
        None
    }
}

/// The chunk of ten listings (the last one may be shorter) that holds the
/// first listing at `pc`, or nothing.
pub open spec fn chunk_at(ls: Seq<InstrListing>, pc: u16) -> Seq<InstrListing> {
    match first_at(ls, pc) {
        Some(j) => {
            let start = (j / 10) * 10;
            ls.subrange(start, if start + 10 <= ls.len() {
                start + 10
            } else {
                ls.len() as int
            })
        },
        None => Seq::empty(),
    }
}

impl Emu {
    /// The emulator's state is one the bus and PPU keep.
    pub open spec fn wf(&self) -> bool {
        self.bus.wf()
    }

    /// Create a new emulator from ROM data
    pub fn new(rom: &[u8], bootrom: Option<&[u8]>) -> (r: Self)
        requires
            rom@.len() <= 0x10000,
            bootrom is Some ==> bootrom->0@.len() == 0x100,
        ensures
            r.wf(),
            r.cpu.registers == RegisterState::spec_zero(),
            r.cpu.opcode == 0,
            r.cpu.op_addr == 0,
            r.cpu.state == CPUState::Running(Stage::Fetch),
            r.bus@ == initial_bus(
                rom@,
                match bootrom {
                    Some(b) => Some(b@),
                    None => None,
                },
            ),
    {
        Emu { cpu: CPU::new(), bus: Bus::new(rom, bootrom) }
    }

    /// Execute one CPU step
    pub fn step(&mut self)
        requires
            old(self).wf(),
            old(self).bus@.room(400),
            old(self).cpu.step_ok(old(self).bus@),
        ensures
            final(self).wf(),
            (final(self).cpu, final(self).bus@) == old(self).cpu.step_spec(old(self).bus@),
            advanced(old(self).bus@, final(self).bus@, 400),
            old(self).cpu.state is Boot || old(self).cpu.state == CPUState::Running(Stage::Execute)
                || final(self).bus.mclock > old(self).bus.mclock,
    {
        self.cpu.step(&mut self.bus);
    }

    /// Execute until reaching target clock cycle
    pub fn run_until(&mut self, target_clock: usize) -> (r: usize)
        requires
            old(self).wf(),
            run_ends(old(self).cpu, old(self).bus@, target_clock),
        ensures
            final(self).wf(),
            (final(self).cpu, final(self).bus@) == run_result(
                old(self).cpu,
                old(self).bus@,
                target_clock,
            ),
            r == final(self).bus.mclock,
            r >= target_clock,
            final(self).bus.timer.mclock - final(self).bus.mclock == old(self).bus.timer.mclock
                - old(self).bus.mclock,
    {
        let ghost fuel = choose|fuel: nat| run_to(self.cpu, self.bus@, target_clock, fuel) is Some;
        let ghost end = run_to(self.cpu, self.bus@, target_clock, fuel);
        let ghost left = fuel;
        let ghost skew = self.bus.timer.mclock - self.bus.mclock;
        while self.bus.mclock() < target_clock
            invariant
                self.wf(),
                self.bus.timer.mclock - self.bus.mclock == skew,
                run_to(self.cpu, self.bus@, target_clock, left) == end,
                end is Some,
            decreases left,
        {
            self.step();
            proof {
                left = (left - 1) as nat;
            }
        }
        self.bus.mclock()
    }

    /// Whether the next step is clear (`CPU::step_clear`, a test of the
    /// registers and of operand bytes in ROM) with room on the clock, so
    /// that `step` may be called.
    pub fn can_step(&self) -> (r: bool)
        requires
            self.wf(),
        ensures
            r == (self.cpu.step_clear(self.bus@) && self.bus@.room(400)),
            r ==> self.cpu.step_ok(self.bus@),
    {
        let r = self.bus.mclock() <= usize::MAX - 400 && self.bus.timer.mclock <= usize::MAX - 400
            && self.cpu.step_is_clear(&self.bus);
        proof {
            if r {
                lemma_step_clear(self.cpu, self.bus@);
            }
        }
        r
    }

    /// Execute until reaching the target clock cycle, testing each step
    /// first with `can_step`: `Some` of the clock reached, which is where
    /// `run_until` ends; `None` where a step that was not clear came first,
    /// the emulator then left just before it. Either way the emulator stands
    /// where steps that were all checked ones took it.
    pub fn run_until_checked(&mut self, target_clock: usize) -> (r: Option<usize>)
        requires
            old(self).wf(),
        ensures
            final(self).wf(),
            exists|n: nat|
                {
                    &&& #[trigger] checked_prefix(old(self).cpu, old(self).bus@, target_clock, n)
                    &&& (final(self).cpu, final(self).bus@) == steps(
                        old(self).cpu,
                        old(self).bus@,
                        n,
                    )
                },
            match r {
                Some(t) => {
                    &&& t == final(self).bus.mclock
                    &&& t >= target_clock
                    &&& run_ends(old(self).cpu, old(self).bus@, target_clock)
                    &&& (final(self).cpu, final(self).bus@) == run_result(
                        old(self).cpu,
                        old(self).bus@,
                        target_clock,
                    )
                },
                None => {
                    &&& final(self).bus.mclock < target_clock
                    &&& !checked_step(final(self).cpu, final(self).bus@, target_clock)
                },
            },
    {
        let ghost c0 = self.cpu;
        let ghost b0 = self.bus@;
        let ghost mut n: nat = 0;
        assert(checked_prefix(c0, b0, target_clock, 0));
        loop
            invariant
                self.wf(),
                c0 == old(self).cpu,
                b0 == old(self).bus@,
                (self.cpu, self.bus@) == steps(c0, b0, n),
                checked_prefix(c0, b0, target_clock, n),
            decreases (if self.bus.mclock >= target_clock {
                0
            } else {
                3 * (target_clock - self.bus.mclock) + phase(self.cpu.state)
            }),
        {
            if self.bus.mclock() >= target_clock {
                proof {
                    lemma_checked_run(c0, b0, target_clock, n);
                    let f = choose|fuel: nat| run_to(c0, b0, target_clock, fuel) is Some;
                    if f <= n {
                        law_run_more_fuel(c0, b0, target_clock, f, n);
                    } else {
                        law_run_more_fuel(c0, b0, target_clock, n, f);
                    }
                }
                assert(checked_prefix(c0, b0, target_clock, n));
                return Some(self.bus.mclock());
            }
            if !self.can_step() {
                assert(checked_prefix(c0, b0, target_clock, n));
                return None;
            }
            proof {
                lemma_steps_last(c0, b0, n);
                assert forall|i: nat| i < n + 1 implies #[trigger] checked_at(
                    c0,
                    b0,
                    target_clock,
                    i,
                ) by {
                    if i < n {
                        assert(checked_at(c0, b0, target_clock, i));
                    }
                }
            }
            self.step();
            proof {
                n = n + 1;
            }
        }
    }

    /// Get current memory view (bootrom or main memory)
    fn current_memory(&self) -> (r: &[u8])
        ensures
            r@ == if self.bus.in_bios == 0 {
                self.bus@.bootrom
            } else {
                self.bus@.memory
            },
    {
        if self.bus.in_bios == 0 {
            self.bus.bootrom.as_slice()
        } else {
            self.bus.memory.as_slice()
        }
    }

    /// Get instruction listing around current PC
    pub fn view(&self) -> (r: Vec<InstrListing>)
        requires
            self.wf(),
        ensures
            r@ == chunk_at(
                listings_from(
                    if self.bus.in_bios == 0 {
                        self.bus@.bootrom
                    } else {
                        self.bus@.memory
                    },
                    0,
                ),
                self.cpu.op_addr,
            ),
    {
        let pc = self.cpu.op_addr;
        let mem = self.current_memory();
        let listings = disassemble(mem);
        // Find chunk containing current PC
        let j = first_index(&listings, pc);
        let ghost ls = listings@;
        if j < listings.len() {
            let start = (j / 10) * 10;
            let end = if listings.len() - start >= 10 {
                start + 10
            } else {
                listings.len()
            };
            copy_range(&listings, start, end)
        } else {
            let r = Vec::new();
            assert(r@ =~= chunk_at(ls, pc));
            r
        }
    }
}

/// The index of the first listing at `pc`, or the length when there is none.
fn first_index(listings: &Vec<InstrListing>, pc: u16) -> (j: usize)
    ensures
        j <= listings@.len(),
        match first_at(listings@, pc) {
            Some(k) => j == k,
            None => j == listings@.len(),
        },
{
    let mut j: usize = 0;
    while j < listings.len() && listings[j].addr != pc
        invariant
            j <= listings@.len(),
            forall|i: int| 0 <= i < j ==> listings@[i].addr != pc,
        decreases listings@.len() - j,
    {
        j += 1;
    }
    proof {
        let ls = listings@;
        if j < ls.len() {
            assert(ls[j as int].addr == pc);
            let k = first_at(ls, pc)->0;
            if k < j {
                assert(ls[k].addr != pc);
            }
            if k > j {
                assert(ls[j as int].addr == pc);
            }
        }
    }
    j
}

/// The listings from `start` up to `end`.
fn copy_range(listings: &Vec<InstrListing>, start: usize, end: usize) -> (r: Vec<InstrListing>)
    requires
        start <= end <= listings@.len(),
    ensures
        r@ == listings@.subrange(start as int, end as int),
{
    let mut chunk: Vec<InstrListing> = Vec::new();
    let mut k = start;
    while k < end
        invariant
            start <= k <= end <= listings@.len(),
            chunk@ == listings@.subrange(start as int, k as int),
        decreases end - k,
    {
        chunk.push(listings[k]);
        k += 1;
    }
    chunk
}

} // verus!
