//! Game Boy Timer subsystem
//!
//! The timer uses a falling edge detector on an internal 16-bit counter.
//! DIV is the upper 8 bits of this counter. TIMA increments when the
//! selected bit of the internal counter transitions from 1 to 0.

pub mod addr;

use crate::cpu::interrupts;
use crate::registers::wrap16;
use crate::text::{append_bin_padded, append_hex_lower, bin_text, bin_width, hex_text_lower};
use vstd::prelude::*;

verus! {

/// Timer enable bit of TAC (bit 2)
pub const TAC_ENABLE: u8 = 0b0000_0100;

/// Clock select mask of TAC (bits 0-1)
pub const TAC_CLOCK_SELECT_MASK: u8 = 0b0000_0011;

/// Valid bits of TAC (bits 0-2)
pub const TAC_VALID_MASK: u8 = 0b0000_0111;

/// Upper bits of TAC, which always read as 1
pub const TAC_UPPER_BITS: u8 = 0b1111_1000;

/// Internal counter bit watched at 4096 Hz (clock select 0b00)
pub const HZ_4096_BIT: u16 = 0x0200;

/// Internal counter bit watched at 262144 Hz (clock select 0b01)
pub const HZ_262144_BIT: u16 = 0x0008;

/// Internal counter bit watched at 65536 Hz (clock select 0b10)
pub const HZ_65536_BIT: u16 = 0x0020;

/// Internal counter bit watched at 16384 Hz (clock select 0b11)
pub const HZ_16384_BIT: u16 = 0x0080;

/// Timer clock speed selection
#[derive(Debug, Clone, Copy, PartialEq, Eq, Hash, Default, Structural)]
pub enum ClockSpeed {
    #[default]
    Hz4096,
    Hz262144,
    Hz65536,
    Hz16384,
}

impl ClockSpeed {
    /// The frequency of a clock speed, in Hz.
    pub open spec fn spec_frequency(self) -> u32 {
        match self {
            ClockSpeed::Hz4096 => 4096,
            ClockSpeed::Hz262144 => 262_144,
            ClockSpeed::Hz65536 => 65536,
            ClockSpeed::Hz16384 => 16384,
        }
    }

    /// The internal-counter bit whose falling edge clocks TIMA.
    pub open spec fn spec_bit_mask(self) -> u16 {
        match self {
            ClockSpeed::Hz4096 => HZ_4096_BIT,
            ClockSpeed::Hz262144 => HZ_262144_BIT,
            ClockSpeed::Hz65536 => HZ_65536_BIT,
            ClockSpeed::Hz16384 => HZ_16384_BIT,
        }
    }

    /// The clock speed that the two low bits of TAC select.
    pub open spec fn spec_from_tac(tac: u8) -> ClockSpeed {
        let sel = tac % 4;
        if sel == 0 {
            ClockSpeed::Hz4096
        } else if sel == 1 {
            ClockSpeed::Hz262144
        } else if sel == 2 {
            ClockSpeed::Hz65536
        } else {
            ClockSpeed::Hz16384
        }
    }

    /// Get the actual frequency in Hz
    pub fn frequency(self) -> (r: u32)
        ensures
            r == self.spec_frequency(),
    {
        match self {
            ClockSpeed::Hz4096 => 4096,
            ClockSpeed::Hz262144 => 262_144,
            ClockSpeed::Hz65536 => 65536,
            ClockSpeed::Hz16384 => 16384,
        }
    }

    /// Get the bit mask for falling edge detection
    fn bit_mask(self) -> (r: u16)
        ensures
            r == self.spec_bit_mask(),
    {
        match self {
            ClockSpeed::Hz4096 => HZ_4096_BIT,
            ClockSpeed::Hz262144 => HZ_262144_BIT,
            ClockSpeed::Hz65536 => HZ_65536_BIT,
            ClockSpeed::Hz16384 => HZ_16384_BIT,
        }
    }

    /// Create from TAC clock select bits
    fn from_tac(tac: u8) -> (r: Self)
        ensures
            r == Self::spec_from_tac(tac),
    {
        let sel = tac & TAC_CLOCK_SELECT_MASK;
        assert(tac & 3 == tac % 4) by (bit_vector);
        if sel == 0 {
            ClockSpeed::Hz4096
        } else if sel == 1 {
            ClockSpeed::Hz262144
        } else if sel == 2 {
            ClockSpeed::Hz65536
        } else {
            ClockSpeed::Hz16384
        }
    }
}

/// Game Boy Timer
#[derive(Debug, Default)]
pub struct Timer {
    /// TIMA - Timer counter (0xFF05)
    pub tima: u8,
    /// TMA - Timer modulo (0xFF06)
    pub tma: u8,
    /// TAC - Timer control (0xFF07); only bits 0-2 are kept by writes
    pub tac: u8,
    /// M-cycle counter (for synchronization)
    pub mclock: usize,
    /// Internal 16-bit counter (DIV is upper 8 bits)
    pub internal: u16,
}

impl Timer {
    /// Whether TIMA counts (TAC bit 2).
    pub open spec fn spec_enabled(self) -> bool {
        self.tac & TAC_ENABLE != 0
    }

    /// The selected clock speed.
    pub open spec fn spec_clock_speed(self) -> ClockSpeed {
        ClockSpeed::spec_from_tac(self.tac)
    }

    /// The value DIV reads as: the upper byte of the internal counter.
    pub open spec fn spec_div(self) -> u8 {
        (self.internal / 256) as u8
    }

    /// The value TAC reads as: upper five bits set, then the stored bits.
    pub open spec fn spec_read_tac(self) -> u8 {
        TAC_UPPER_BITS | (self.tac & TAC_VALID_MASK)
    }

    /// The timer with the internal counter set to `v` and other state kept.
    pub open spec fn with_internal(self, v: u16) -> Timer {
        Timer { internal: v, ..self }
    }

    /// The timer with TIMA set to `v` and other state kept.
    pub open spec fn with_tima(self, v: u8) -> Timer {
        Timer { tima: v, ..self }
    }

    /// The timer after a TAC write of `value`.
    pub open spec fn with_tac_written(self, value: u8) -> Timer {
        Timer { tac: value & TAC_VALID_MASK, ..self }
    }

    /// The timer with the M-cycle counter advanced by one.
    pub open spec fn with_mclock_bumped(self) -> Timer {
        Timer { mclock: (self.mclock + 1) as usize, ..self }
    }

    /// One step of the internal counter to `new_value`, with falling-edge
    /// detection: returns the new timer and the new interrupt flags.
    pub open spec fn update_spec(self, flags: u8, new_value: u16) -> (Timer, u8) {
        let mask = self.spec_clock_speed().spec_bit_mask();
        let was_high = self.internal & mask != 0;
        let now_low = new_value & mask == 0;
        let t = self.with_internal(new_value);
        if self.spec_enabled() && was_high && now_low {
            if self.tima == 255 {
                (t.with_tima(self.tma), flags | interrupts::TIMER)
            } else {
                (t.with_tima((self.tima + 1) as u8), flags)
            }
        } else {
            (t, flags)
        }
    }

    /// `k` successive increments of the internal counter.
    pub open spec fn advance_spec(self, flags: u8, k: nat) -> (Timer, u8)
        decreases k,
    {
        if k == 0 {
            (self, flags)
        } else {
            let (t, f) = self.advance_spec(flags, (k - 1) as nat);
            t.update_spec(f, wrap16(t.internal + 1))
        }
    }

    /// One M-cycle: the cycle counter advances by one and the internal
    /// counter by four T-cycles.
    pub open spec fn tick_spec(self, flags: u8) -> (Timer, u8) {
        self.with_mclock_bumped().advance_spec(flags, 4)
    }

    /// Advancing the internal counter never touches the M-cycle counter,
    /// TMA or TAC.
    pub proof fn lemma_advance_keeps(self, flags: u8, k: nat)
        ensures
            self.advance_spec(flags, k).0.mclock == self.mclock,
            self.advance_spec(flags, k).0.tma == self.tma,
            self.advance_spec(flags, k).0.tac == self.tac,
        decreases k,
    {
        if k > 0 {
            self.lemma_advance_keeps(flags, (k - 1) as nat);
            let (t, f) = self.advance_spec(flags, (k - 1) as nat);
        }
    }

    /// A tick advances the M-cycle counter by exactly one.
    pub proof fn lemma_tick_mclock(self, flags: u8)
        requires
            self.mclock < usize::MAX,
        ensures
            self.tick_spec(flags).0.mclock == self.mclock + 1,
            self.tick_spec(flags).0.tma == self.tma,
            self.tick_spec(flags).0.tac == self.tac,
    {
        self.with_mclock_bumped().lemma_advance_keeps(flags, 4);
    }

    /// The timer at power-on: every counter zero and the timer stopped.
    pub open spec fn spec_new() -> Timer {
        Timer { tima: 0, tma: 0, tac: 0, mclock: 0, internal: 0 }
    }

    /// A timer with every counter zero and the timer stopped.
    pub fn new() -> (r: Self)
        ensures
            r == Timer::spec_new(),
    {
        Timer { tima: 0, tma: 0, tac: 0, mclock: 0, internal: 0 }
    }

    /// Check if timer is enabled (TAC bit 2)
    pub fn is_enabled(&self) -> (r: bool)
        ensures
            r == self.spec_enabled(),
    {
        self.tac & TAC_ENABLE != 0
    }

    /// Get the current clock speed selection
    pub fn clock_speed(&self) -> (r: ClockSpeed)
        ensures
            r == self.spec_clock_speed(),
    {
        ClockSpeed::from_tac(self.tac)
    }

    /// Read TAC register
    pub fn read_tac(&self) -> (r: u8)
        ensures
            r == self.spec_read_tac(),
    {
        TAC_UPPER_BITS | (self.tac & TAC_VALID_MASK)
    }

    /// Write TAC register
    pub fn write_tac(&mut self, value: u8)
        ensures
            *final(self) == old(self).with_tac_written(value),
    {
        self.tac = value & TAC_VALID_MASK;
    }

    /// Read DIV register (upper 8 bits of internal counter)
    pub fn read_div(&self) -> (r: u8)
        ensures
            r == self.spec_div(),
    {
        self.div()
    }

    /// Write to DIV register (any write resets internal counter to 0)
    pub fn write_div(&mut self, _value: u8)
        ensures
            *final(self) == old(self).with_internal(0),
    {
        self.internal = 0;
    }

    /// Get DIV value (upper 8 bits of internal counter)
    pub fn div(&self) -> (r: u8)
        ensures
            r == self.spec_div(),
    {
        let v = self.internal;
        assert((v >> 8u16) as u8 == (v / 256) as u8) by (bit_vector);
        (v >> 8u16) as u8
    }

    /// Update internal counter with falling edge detection
    ///
    /// This implements the Game Boy's timer behavior where TIMA increments
    /// when the selected bit of the internal counter falls from 1 to 0.
    fn update_internal(&mut self, flags: &mut u8, new_value: u16)
        ensures
            (*final(self), *final(flags)) == old(self).update_spec(*old(flags), new_value),
    {
        let speed = self.clock_speed();
        let mask = speed.bit_mask();

        let was_high = self.internal & mask != 0;
        self.internal = new_value;
        let now_low = self.internal & mask == 0;

        // Falling edge: was 1, now 0
        if self.is_enabled() && was_high && now_low {
            if self.tima == 255 {
                *flags |= interrupts::TIMER;
                self.tima = self.tma;
            } else {
                self.tima = self.tima + 1;
            }
        }
    }

    /// Advance timer by one M-cycle (4 T-cycles)
    pub fn tick(&mut self, flags: &mut u8)
        requires
            old(self).mclock < usize::MAX,
        ensures
            (*final(self), *final(flags)) == old(self).tick_spec(*old(flags)),
    {
        self.mclock += 1;
        let ghost start = *self;
        let ghost start_flags = *flags;
        let mut i: u32 = 0;
        // Internal counter runs at 4MHz (4 T-cycles per M-cycle)
        while i < 4
            invariant
                i <= 4,
                (*self, *flags) == start.advance_spec(start_flags, i as nat),
            decreases 4 - i,
        {
            let next = self.internal.wrapping_add(1);
            self.update_internal(flags, next);
            i += 1;
        }
    }
}


// ============================================================================
// The rate of TIMA
// ============================================================================

/// How many of `i + 1`, ..., `i + n` are multiples of `p`.
pub open spec fn multiples(i: int, n: nat, p: int) -> nat
    decreases n,
{
    if n == 0 {
        0
    } else {
        multiples(i, (n - 1) as nat, p) + if (i + n) % p == 0 {
            1nat
        } else {
            0nat
        }
    }
}

impl ClockSpeed {
    /// The internal-counter period of one TIMA increment: twice the watched bit.
    pub open spec fn period(self) -> int {
        2 * self.spec_bit_mask()
    }
}

/// The two low bits of TAC pick the TIMA rate: 0, 1, 2 and 3 give 4096,
/// 262144, 65536 and 16384 increments a second, one every 1024, 16, 64 and
/// 256 T-cycles of the 4194304 Hz clock.
pub proof fn law_tac_rates(tac: u8)
    ensures
        ({
            let speed = ClockSpeed::spec_from_tac(tac);
            let sel = tac % 4;
            &&& speed.period() * speed.spec_frequency() == 4_194_304
            &&& sel == 0 ==> speed.period() == 1024
            &&& sel == 1 ==> speed.period() == 16
            &&& sel == 2 ==> speed.period() == 64
            &&& sel == 3 ==> speed.period() == 256
        }),
{
    let speed = ClockSpeed::spec_from_tac(tac);
    assert(speed.period() * speed.spec_frequency() == 4_194_304) by (nonlinear_arith)
        requires
            (speed.period() == 1024 && speed.spec_frequency() == 4096) || (speed.period() == 16
                && speed.spec_frequency() == 262_144) || (speed.period() == 64
                && speed.spec_frequency() == 65536) || (speed.period() == 256
                && speed.spec_frequency() == 16384),
    ;
}

/// When TIMA is incremented at 255 it overflows: it is reloaded from TMA and
/// the TIMER interrupt is requested; below 255 it just counts up by one and
/// no interrupt is requested. An increment happens exactly when the timer
/// runs and the watched counter bit falls.
pub proof fn law_tima_overflow(t: Timer, flags: u8, new_value: u16)
    ensures
        ({
            let mask = t.spec_clock_speed().spec_bit_mask();
            let fires = t.spec_enabled() && t.internal & mask != 0 && new_value & mask == 0;
            let (t1, f1) = t.update_spec(flags, new_value);
            &&& t1.internal == new_value
            &&& fires && t.tima == 255 ==> t1.tima == t.tma && f1 == flags | 0x04
            &&& fires && t.tima < 255 ==> t1.tima == t.tima + 1 && f1 == flags
            &&& !fires ==> t1.tima == t.tima && f1 == flags
        }),
{
}

/// `k` M-cycles of the timer.
pub open spec fn ticks(t: Timer, flags: u8, k: nat) -> (Timer, u8)
    decreases k,
{
    if k == 0 {
        (t, flags)
    } else {
        let (t1, f1) = ticks(t, flags, (k - 1) as nat);
        t1.tick_spec(f1)
    }
}

/// Counting multiples over two stretches one after the other.
proof fn lemma_multiples_split(i: int, a: nat, b: nat, p: int)
    ensures
        multiples(i, a + b, p) == multiples(i, a, p) + multiples(i + a, b, p),
    decreases b,
{
    if b > 0 {
        lemma_multiples_split(i, a, (b - 1) as nat, p);
        assert(i + (a + b) == (i + a) + b);
    }
}

/// The watched bit falls exactly when the counter reaches a multiple of the period.
proof fn lemma_falling_edge(x: u16, m: u16, i: int)
    requires
        m == HZ_4096_BIT || m == HZ_262144_BIT || m == HZ_65536_BIT || m == HZ_16384_BIT,
        x == i % 65536,
    ensures
        (x & m != 0 && wrap16(x + 1) & m == 0) == ((i + 1) % (2 * m) == 0),
        wrap16(x + 1) == (i + 1) % 65536,
{
    assert((x & m != 0 && ((x + 1) % 65536) as u16 & m == 0) == ((x + 1) % (2 * m) == 0))
        by (bit_vector)
        requires
            m == 0x200u16 || m == 0x8u16 || m == 0x20u16 || m == 0x80u16,
    ;
    let p = 2 * m as int;
    assert(65536int == p * (65536int / p)) by {
        assert(m == 0x200 || m == 0x8 || m == 0x20 || m == 0x80);
    }
    vstd::arithmetic::div_mod::lemma_mod_mod(i, p, 65536int / p);
    vstd::arithmetic::div_mod::lemma_add_mod_noop(x as int, 1, p);
    vstd::arithmetic::div_mod::lemma_add_mod_noop(i, 1, p);
    vstd::arithmetic::div_mod::lemma_add_mod_noop(x as int, 1, 65536);
    vstd::arithmetic::div_mod::lemma_add_mod_noop(i, 1, 65536);
}

/// `n` counter steps of a running timer: the counter moves `n` on and TIMA
/// counts the multiples of the period passed, while it does not overflow.
proof fn lemma_advance_running(t: Timer, f: u8, n: nat, i: int)
    requires
        t.spec_enabled(),
        t.internal == i % 65536,
        t.tima + multiples(i, n, t.spec_clock_speed().period()) <= 255,
    ensures
        t.advance_spec(f, n) == (Timer {
            internal: ((i + n) % 65536) as u16,
            tima: (t.tima + multiples(i, n, t.spec_clock_speed().period())) as u8,
            ..t
        }, f),
    decreases n,
{
    let p = t.spec_clock_speed().period();
    if n > 0 {
        lemma_advance_running(t, f, (n - 1) as nat, i);
        let (t1, f1) = t.advance_spec(f, (n - 1) as nat);
        lemma_falling_edge(t1.internal, t.spec_clock_speed().spec_bit_mask(), i + n - 1);
        assert(i + n - 1 + 1 == i + n);
    } else {
        assert(i % 65536 == t.internal as int);
    }
}

/// `n` counter steps of a stopped timer move only the counter.
proof fn lemma_advance_stopped(t: Timer, f: u8, n: nat, i: int)
    requires
        !t.spec_enabled(),
        t.internal == i % 65536,
    ensures
        t.advance_spec(f, n) == (Timer { internal: ((i + n) % 65536) as u16, ..t }, f),
    decreases n,
{
    if n > 0 {
        lemma_advance_stopped(t, f, (n - 1) as nat, i);
        let (t1, f1) = t.advance_spec(f, (n - 1) as nat);
        vstd::arithmetic::div_mod::lemma_add_mod_noop(t1.internal as int, 1, 65536);
        vstd::arithmetic::div_mod::lemma_add_mod_noop(i + n - 1, 1, 65536);
        assert(i + n - 1 + 1 == i + n);
    }
}

/// TIMA counts at the selected rate: over `k` M-cycles of a running timer
/// the internal counter moves `4k` on and TIMA grows by the number of
/// multiples of the period (1024, 16, 64 or 256) it passes, while TIMA does
/// not overflow; no interrupt is requested. A stopped timer only moves the
/// counter.
pub proof fn law_tima_rate(t: Timer, f: u8, k: nat)
    requires
        t.mclock + k <= usize::MAX,
        t.spec_enabled() ==> t.tima + multiples(
            t.internal as int,
            4 * k,
            t.spec_clock_speed().period(),
        ) <= 255,
    ensures
        t.spec_enabled() ==> ticks(t, f, k) == (Timer {
            internal: ((t.internal + 4 * k) % 65536) as u16,
            tima: (t.tima + multiples(t.internal as int, 4 * k, t.spec_clock_speed().period())) as u8,
            mclock: (t.mclock + k) as usize,
            ..t
        }, f),
        !t.spec_enabled() ==> ticks(t, f, k) == (Timer {
            internal: ((t.internal + 4 * k) % 65536) as u16,
            mclock: (t.mclock + k) as usize,
            ..t
        }, f),
    decreases k,
{
    let i = t.internal as int;
    let p = t.spec_clock_speed().period();
    if k > 0 {
        let k1 = (k - 1) as nat;
        lemma_multiples_split(i, 4 * k1, 4, p);
        assert(4 * k == 4 * k1 + 4);
        law_tima_rate(t, f, k1);
        let (t1, f1) = ticks(t, f, k1);
        let tb = t1.with_mclock_bumped();
        assert(tb.internal == (i + 4 * k1) % 65536);
        if t.spec_enabled() {
            lemma_advance_running(tb, f1, 4, i + 4 * k1);
        } else {
            lemma_advance_stopped(tb, f1, 4, i + 4 * k1);
        }
        assert(i + 4 * k1 + 4 == i + 4 * k);
    } else {
        assert(t.internal as int % 65536 == t.internal as int);
    }
}


// ============================================================================
// Text of the timer
// ============================================================================

impl ClockSpeed {
    /// The variant's name as `{:?}` prints it.
    pub open spec fn text(self) -> Seq<char> {
        match self {
            ClockSpeed::Hz4096 => "Hz4096"@,
            ClockSpeed::Hz262144 => "Hz262144"@,
            ClockSpeed::Hz65536 => "Hz65536"@,
            ClockSpeed::Hz16384 => "Hz16384"@,
        }
    }

    /// The variant's name as `{:?}` prints it.
    pub fn to_str(self) -> (r: &'static str)
        ensures
            r@ == self.text(),
    {
        match self {
            ClockSpeed::Hz4096 => "Hz4096",
            ClockSpeed::Hz262144 => "Hz262144",
            ClockSpeed::Hz65536 => "Hz65536",
            ClockSpeed::Hz16384 => "Hz16384",
        }
    }
}

impl Timer {
    /// `DIV:dd TIMA:tt TMA:mm TAC:<speed> (ON|OFF) internal:<16 binary digits>`.
    pub open spec fn text(self) -> Seq<char> {
        "DIV:"@ + hex_text_lower(self.spec_div() as nat, 2) + " TIMA:"@ + hex_text_lower(
            self.tima as nat,
            2,
        ) + " TMA:"@ + hex_text_lower(self.tma as nat, 2) + " TAC:"@
            + self.spec_clock_speed().text() + " ("@ + if self.spec_enabled() {
            "ON"@
        } else {
            "OFF"@
        } + ") internal:"@ + bin_text(self.internal as nat, bin_width(self.internal as nat, 16))
    }

    /// The timer as text.
    pub fn to_string(&self) -> (r: String)
        ensures
            r@ == self.text(),
    {
        let mut s = String::from_str("DIV:");
        append_hex_lower(&mut s, self.div() as u16, 2);
        s.append(" TIMA:");
        append_hex_lower(&mut s, self.tima as u16, 2);
        s.append(" TMA:");
        append_hex_lower(&mut s, self.tma as u16, 2);
        s.append(" TAC:");
        s.append(self.clock_speed().to_str());
        s.append(" (");
        if self.is_enabled() {
            s.append("ON");
        } else {
            s.append("OFF");
        }
        s.append(") internal:");
        append_bin_padded(&mut s, self.internal, 16);
        assert(s@ =~= self.text());
        s
    }
}

} // verus!
