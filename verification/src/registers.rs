//! The CPU register file and its flag helpers.

use crate::operand::{Reg16, Reg8};
use crate::text::{append_bin_padded, append_hex_lower, bin_text, bin_width, hex_text_lower};
use vstd::prelude::*;

verus! {

/// The Game Boy CPU registers. `f` holds the flags Z, N, H, C in bits 7 to 4.
#[derive(Default, Debug, Clone, Copy)]
pub struct RegisterState {
    pub a: u8,
    pub b: u8,
    pub c: u8,
    pub d: u8,
    pub e: u8,
    pub f: u8,  //flags
    pub h: u8,
    pub l: u8,
    pub sp: u16,
    pub pc: u16,
}

/// Bit mask of the zero flag in `f`.
pub const ZF_MASK: u8 = 0x80;

/// Bit mask of the subtract flag in `f`.
pub const NF_MASK: u8 = 0x40;

/// Bit mask of the half-carry flag in `f`.
pub const HF_MASK: u8 = 0x20;

/// Bit mask of the carry flag in `f`.
pub const CF_MASK: u8 = 0x10;

/// The flag byte with Z, N, H, C set as given and the low nibble clear.
pub open spec fn flag_byte(z: bool, n: bool, h: bool, c: bool) -> u8 {
    (if z { 0x80u8 } else { 0u8 }) | (if n { 0x40u8 } else { 0u8 }) | (if h { 0x20u8 } else {
        0u8
    }) | (if c { 0x10u8 } else { 0u8 })
}

/// `f` with the bits of `mask` cleared, then set again when `on`.
pub open spec fn update_bit(f: u8, mask: u8, on: bool) -> u8 {
    (f & !mask) | (if on { mask } else { 0u8 })
}

/// `f` after setting Z, N, H and C, one after the other; the low nibble is kept.
pub open spec fn set_znhc(f: u8, z: bool, n: bool, h: bool, c: bool) -> u8 {
    update_bit(update_bit(update_bit(update_bit(f, ZF_MASK, z), NF_MASK, n), HF_MASK, h), CF_MASK, c)
}

/// An integer reduced to a byte (two's-complement wrap-around).
pub open spec fn wrap8(x: int) -> u8 {
    (x % 256) as u8
}

/// An integer reduced to a word (two's-complement wrap-around).
pub open spec fn wrap16(x: int) -> u16 {
    (x % 65536) as u16
}

/// A byte sign-extended to a word (two's complement).
pub open spec fn sign_extend(b: u8) -> u16 {
    if b < 128 {
        b as u16
    } else {
        (b + 0xFF00) as u16
    }
}

/// A byte sign-extended to a word, as the CPU does with relative offsets.
pub fn sign_extend_byte(b: u8) -> (r: u16)
    ensures
        r == sign_extend(b),
        r % 16 == b % 16,
        r % 256 == b as int,
{
    if b < 128 {
        b as u16
    } else {
        (b as u16) + 0xFF00u16
    }
}

/// Updating one flag bit sets that flag as asked and keeps the other three.
pub proof fn lemma_update_flag(f: u8, mask: u8, on: bool)
    requires
        mask == ZF_MASK || mask == NF_MASK || mask == HF_MASK || mask == CF_MASK,
    ensures
        (update_bit(f, mask, on) & ZF_MASK != 0) == if mask == ZF_MASK {
            on
        } else {
            f & ZF_MASK != 0
        },
        (update_bit(f, mask, on) & NF_MASK != 0) == if mask == NF_MASK {
            on
        } else {
            f & NF_MASK != 0
        },
        (update_bit(f, mask, on) & HF_MASK != 0) == if mask == HF_MASK {
            on
        } else {
            f & HF_MASK != 0
        },
        (update_bit(f, mask, on) & CF_MASK != 0) == if mask == CF_MASK {
            on
        } else {
            f & CF_MASK != 0
        },
{
    assert((((f & !mask) | (if on { mask } else { 0u8 })) & 0x80 != 0 == if mask == 0x80 {
        on
    } else {
        f & 0x80 != 0
    }) && (((f & !mask) | (if on { mask } else { 0u8 })) & 0x40 != 0 == if mask == 0x40 {
        on
    } else {
        f & 0x40 != 0
    }) && (((f & !mask) | (if on { mask } else { 0u8 })) & 0x20 != 0 == if mask == 0x20 {
        on
    } else {
        f & 0x20 != 0
    }) && (((f & !mask) | (if on { mask } else { 0u8 })) & 0x10 != 0 == if mask == 0x10 {
        on
    } else {
        f & 0x10 != 0
    })) by (bit_vector)
        requires
            mask == 0x80u8 || mask == 0x40u8 || mask == 0x20u8 || mask == 0x10u8,
    ;
}

/// The low nibble of a byte is its remainder modulo 16.
pub proof fn lemma_low_nibble(x: u8)
    ensures
        x & 0x0F == x % 16,
        x & 0xFF == x,
{
    assert(x & 0x0F == x % 16 && x & 0xFF == x) by (bit_vector);
}

/// Masks of a word are remainders.
pub proof fn lemma_word_masks(x: u16)
    ensures
        x & 0x0F == x % 16,
        x & 0xFF == x % 256,
        x & 0x0FFF == x % 4096,
{
    assert(x & 0x0F == x % 16 && x & 0xFF == x % 256 && x & 0x0FFF == x % 4096) by (bit_vector);
}

/// A byte pair read as a big-endian word: `hi` is the upper byte.
pub open spec fn word(hi: u8, lo: u8) -> u16 {
    (hi as int * 256 + lo as int) as u16
}

/// The upper byte of a word.
pub open spec fn hi_byte(v: u16) -> u8 {
    (v / 256) as u8
}

/// The lower byte of a word.
pub open spec fn lo_byte(v: u16) -> u8 {
    (v % 256) as u8
}

/// Setting the four flags in turn keeps the low nibble and sets bits 7..4 as given.
pub proof fn law_set_znhc(f: u8, z: bool, n: bool, h: bool, c: bool)
    ensures
        set_znhc(f, z, n, h, c) == (f & 0x0F) | flag_byte(z, n, h, c),
        (set_znhc(f, z, n, h, c) & ZF_MASK != 0) == z,
        (set_znhc(f, z, n, h, c) & NF_MASK != 0) == n,
        (set_znhc(f, z, n, h, c) & HF_MASK != 0) == h,
        (set_znhc(f, z, n, h, c) & CF_MASK != 0) == c,
{
    assert(set_znhc(f, z, n, h, c) == (f & 0x0F) | flag_byte(z, n, h, c) && (set_znhc(f, z, n, h, c)
        & 0x80 != 0) == z && (set_znhc(f, z, n, h, c) & 0x40 != 0) == n && (set_znhc(f, z, n, h, c)
        & 0x20 != 0) == h && (set_znhc(f, z, n, h, c) & 0x10 != 0) == c) by (bit_vector);
}

/// A word split into bytes and joined again is the same word.
pub proof fn lemma_word_split(v: u16)
    ensures
        word(hi_byte(v), lo_byte(v)) == v,
{
}

/// The bytes of a joined word are the bytes it was made of.
pub proof fn lemma_word_join(hi: u8, lo: u8)
    ensures
        hi_byte(word(hi, lo)) == hi,
        lo_byte(word(hi, lo)) == lo,
{
}

/// Compute the flag byte from the four flags.
#[allow(clippy::fn_params_excessive_bools)]
pub fn flags(z: bool, n: bool, h: bool, c: bool) -> (r: u8)
    ensures
        r == flag_byte(z, n, h, c),
{
    (if z { 0x80u8 } else { 0u8 }) | (if n { 0x40u8 } else { 0u8 }) | (if h { 0x20u8 } else {
        0u8
    }) | (if c { 0x10u8 } else { 0u8 })
}

pub(crate) fn join_bytes(hi: u8, lo: u8) -> (r: u16)
    ensures
        r == word(hi, lo),
{
    let r = ((hi as u16) << 8u16) | (lo as u16);
    assert(((hi as u16) << 8u16) | (lo as u16) == (hi as u16) * 256 + (lo as u16)) by (bit_vector);
    r
}

pub(crate) fn split_word(v: u16) -> (r: (u8, u8))
    ensures
        r.0 == hi_byte(v),
        r.1 == lo_byte(v),
{
    assert((v >> 8u16) as u8 == (v / 256) as u8 && (v & 0xFFu16) as u8 == (v % 256) as u8) by (
    bit_vector);
    (((v >> 8u16) as u8), ((v & 0xFFu16) as u8))
}

impl RegisterState {
    /// The zero flag.
    pub open spec fn zf(self) -> bool {
        self.f & ZF_MASK != 0
    }

    /// The subtract flag.
    pub open spec fn nf(self) -> bool {
        self.f & NF_MASK != 0
    }

    /// The half-carry flag.
    pub open spec fn hf(self) -> bool {
        self.f & HF_MASK != 0
    }

    /// The carry flag.
    pub open spec fn cf(self) -> bool {
        self.f & CF_MASK != 0
    }

    /// The value of an 8-bit register.
    pub open spec fn r8(self, r: Reg8) -> u8 {
        match r {
            Reg8::A => self.a,
            Reg8::B => self.b,
            Reg8::C => self.c,
            Reg8::D => self.d,
            Reg8::E => self.e,
            Reg8::H => self.h,
            Reg8::L => self.l,
            Reg8::F => self.f,
        }
    }

    /// The registers after writing an 8-bit register; F keeps only its upper nibble.
    pub open spec fn with_r8(self, r: Reg8, v: u8) -> Self {
        match r {
            Reg8::A => RegisterState { a: v, ..self },
            Reg8::B => RegisterState { b: v, ..self },
            Reg8::C => RegisterState { c: v, ..self },
            Reg8::D => RegisterState { d: v, ..self },
            Reg8::E => RegisterState { e: v, ..self },
            Reg8::H => RegisterState { h: v, ..self },
            Reg8::L => RegisterState { l: v, ..self },
            Reg8::F => RegisterState { f: v & 0xF0, ..self },
        }
    }

    /// The value of a register pair (upper register first).
    pub open spec fn r16(self, r: Reg16) -> u16 {
        match r {
            Reg16::BC => word(self.b, self.c),
            Reg16::DE => word(self.d, self.e),
            Reg16::HL => word(self.h, self.l),
            Reg16::SP => self.sp,
            Reg16::AF => word(self.a, self.f),
        }
    }

    /// The registers after writing a register pair; F keeps only its upper nibble.
    pub open spec fn with_r16(self, r: Reg16, v: u16) -> Self {
        match r {
            Reg16::BC => RegisterState { b: hi_byte(v), c: lo_byte(v), ..self },
            Reg16::DE => RegisterState { d: hi_byte(v), e: lo_byte(v), ..self },
            Reg16::HL => RegisterState { h: hi_byte(v), l: lo_byte(v), ..self },
            Reg16::SP => RegisterState { sp: v, ..self },
            Reg16::AF => RegisterState { a: hi_byte(v), f: lo_byte(v) & 0xF0, ..self },
        }
    }

    /// The registers with a new flag byte.
    pub open spec fn with_f(self, f: u8) -> Self {
        RegisterState { f, ..self }
    }

    /// The registers after setting Z, N and H as given (C kept).
    pub open spec fn with_znh(self, z: bool, n: bool, h: bool) -> Self {
        self.with_f(update_bit(update_bit(update_bit(self.f, ZF_MASK, z), NF_MASK, n), HF_MASK, h))
    }

    /// The registers after setting N, H and C as given (Z kept).
    pub open spec fn with_nhc(self, n: bool, h: bool, c: bool) -> Self {
        self.with_f(update_bit(update_bit(update_bit(self.f, NF_MASK, n), HF_MASK, h), CF_MASK, c))
    }

    /// The registers after setting N and H as given (Z and C kept).
    pub open spec fn with_nh(self, n: bool, h: bool) -> Self {
        self.with_f(update_bit(update_bit(self.f, NF_MASK, n), HF_MASK, h))
    }

    /// The registers after setting Z, N, H and C as given.
    pub open spec fn with_znhc(self, z: bool, n: bool, h: bool, c: bool) -> Self {
        self.with_f(set_znhc(self.f, z, n, h, c))
    }

    /// Get an 8-bit register value using the typed Reg8 enum
    #[inline]
    pub fn get_r8(&self, r: Reg8) -> (v: u8)
        ensures
            v == self.r8(r),
    {
        match r {
            Reg8::A => self.a,
            Reg8::B => self.b,
            Reg8::C => self.c,
            Reg8::D => self.d,
            Reg8::E => self.e,
            Reg8::H => self.h,
            Reg8::L => self.l,
            Reg8::F => self.f,
        }
    }

    /// Set an 8-bit register value using the typed Reg8 enum
    #[inline]
    pub fn set_r8(&mut self, r: Reg8, value: u8)
        ensures
            *final(self) == old(self).with_r8(r, value),
    {
        match r {
            Reg8::A => self.a = value,
            Reg8::B => self.b = value,
            Reg8::C => self.c = value,
            Reg8::D => self.d = value,
            Reg8::E => self.e = value,
            Reg8::H => self.h = value,
            Reg8::L => self.l = value,
            Reg8::F => self.f = value & 0xF0,  // Lower 4 bits of F are always 0
        }
    }

    /// Get a 16-bit register pair value using the typed Reg16 enum
    #[inline]
    pub fn get_r16(&self, r: Reg16) -> (v: u16)
        ensures
            v == self.r16(r),
    {
        match r {
            Reg16::BC => join_bytes(self.b, self.c),
            Reg16::DE => join_bytes(self.d, self.e),
            Reg16::HL => join_bytes(self.h, self.l),
            Reg16::SP => self.sp,
            Reg16::AF => join_bytes(self.a, self.f),
        }
    }

    /// Set a 16-bit register pair value using the typed Reg16 enum
    #[inline]
    pub fn set_r16(&mut self, r: Reg16, value: u16)
        ensures
            *final(self) == old(self).with_r16(r, value),
    {
        match r {
            Reg16::BC => {
                let (hi, lo) = split_word(value);
                self.b = hi;
                self.c = lo;
            },
            Reg16::DE => {
                let (hi, lo) = split_word(value);
                self.d = hi;
                self.e = lo;
            },
            Reg16::HL => {
                let (hi, lo) = split_word(value);
                self.h = hi;
                self.l = lo;
            },
            Reg16::SP => self.sp = value,
            Reg16::AF => {
                let (hi, lo) = split_word(value);
                self.a = hi;
                self.f = lo & 0xF0;  // Lower 4 bits of F are always 0
            },
        }
    }

    /// Increment a 16-bit register pair
    #[inline]
    pub fn inc_r16(&mut self, r: Reg16)
        ensures
            *final(self) == old(self).with_r16(r, wrap16(old(self).r16(r) + 1)),
    {
        let v = self.get_r16(r);
        self.set_r16(r, v.wrapping_add(1));
    }

    /// Decrement a 16-bit register pair
    #[inline]
    pub fn dec_r16(&mut self, r: Reg16)
        ensures
            *final(self) == old(self).with_r16(r, wrap16(old(self).r16(r) - 1)),
    {
        let v = self.get_r16(r);
        self.set_r16(r, v.wrapping_sub(1));
    }

    /// All registers zero.
    pub open spec fn spec_zero() -> Self {
        RegisterState { a: 0, b: 0, c: 0, d: 0, e: 0, f: 0, h: 0, l: 0, sp: 0, pc: 0 }
    }

    /// All registers zero.
    pub fn new() -> (r: Self)
        ensures
            r == Self::spec_zero(),
    {
        RegisterState { a: 0, b: 0, c: 0, d: 0, e: 0, f: 0, h: 0, l: 0, sp: 0, pc: 0 }
    }

    /// Set all four flags from `[Z, N, H, C]`; the low nibble of F is cleared.
    pub fn set_flags(&mut self, value: [bool; 4])
        ensures
            *final(self) == old(self).with_f(flag_byte(value@[0], value@[1], value@[2], value@[3])),
    {
        self.f = flags(value[0], value[1], value[2], value[3]);
    }

    /// Set or clear the carry flag.
    #[inline]
    pub fn set_cf(&mut self, b: bool)
        ensures
            *final(self) == old(self).with_f(update_bit(old(self).f, CF_MASK, b)),
    {
        self.f = (self.f & !CF_MASK) | (if b { CF_MASK } else { 0u8 });
    }

    /// Set or clear the half-carry flag.
    #[inline]
    pub fn set_hf(&mut self, b: bool)
        ensures
            *final(self) == old(self).with_f(update_bit(old(self).f, HF_MASK, b)),
    {
        self.f = (self.f & !HF_MASK) | (if b { HF_MASK } else { 0u8 });
    }

    /// Set or clear the subtract flag.
    #[inline]
    pub fn set_nf(&mut self, b: bool)
        ensures
            *final(self) == old(self).with_f(update_bit(old(self).f, NF_MASK, b)),
    {
        self.f = (self.f & !NF_MASK) | (if b { NF_MASK } else { 0u8 });
    }

    /// Set or clear the zero flag.
    #[inline]
    pub fn set_zf(&mut self, b: bool)
        ensures
            *final(self) == old(self).with_f(update_bit(old(self).f, ZF_MASK, b)),
    {
        self.f = (self.f & !ZF_MASK) | (if b { ZF_MASK } else { 0u8 });
    }

    /// A copy of the registers with PC set to `address`.
    #[must_use]
    pub fn jump(&self, address: u16) -> (r: Self)
        ensures
            r == (RegisterState { pc: address, ..*self }),
    {
        RegisterState { pc: address, ..*self }
    }

    pub fn flg_z(&self) -> (r: bool)
        ensures
            r == self.zf(),
    {
        (self.f & ZF_MASK) != 0
    }

    pub fn flg_nz(&self) -> (r: bool)
        ensures
            r == !self.zf(),
    {
        !self.flg_z()
    }

    pub fn flg_n(&self) -> (r: bool)
        ensures
            r == self.nf(),
    {
        (self.f & NF_MASK) != 0
    }

    pub fn flg_nn(&self) -> (r: bool)
        ensures
            r == !self.nf(),
    {
        !self.flg_n()
    }

    pub fn flg_h(&self) -> (r: bool)
        ensures
            r == self.hf(),
    {
        (self.f & HF_MASK) != 0
    }

    pub fn flg_nh(&self) -> (r: bool)
        ensures
            r == !self.hf(),
    {
        !self.flg_h()
    }

    pub fn flg_c(&self) -> (r: bool)
        ensures
            r == self.cf(),
    {
        (self.f & CF_MASK) != 0
    }

    pub fn flg_nc(&self) -> (r: bool)
        ensures
            r == !self.cf(),
    {
        !self.flg_c()
    }

    pub fn a(&self) -> (r: u8)
        ensures
            r == self.a,
    {
        self.a
    }

    pub fn b(&self) -> (r: u8)
        ensures
            r == self.b,
    {
        self.b
    }

    pub fn c(&self) -> (r: u8)
        ensures
            r == self.c,
    {
        self.c
    }

    pub fn d(&self) -> (r: u8)
        ensures
            r == self.d,
    {
        self.d
    }

    pub fn e(&self) -> (r: u8)
        ensures
            r == self.e,
    {
        self.e
    }

    pub fn f(&self) -> (r: u8)
        ensures
            r == self.f,
    {
        self.f
    }

    pub fn h(&self) -> (r: u8)
        ensures
            r == self.h,
    {
        self.h
    }

    pub fn l(&self) -> (r: u8)
        ensures
            r == self.l,
    {
        self.l
    }

    pub fn sp(&self) -> (r: u16)
        ensures
            r == self.sp,
    {
        self.sp
    }

    pub fn pc(&self) -> (r: u16)
        ensures
            r == self.pc,
    {
        self.pc
    }

    /// The AF pair as a word.
    pub fn af(&self) -> (r: u16)
        ensures
            r == word(self.a, self.f),
    {
        join_bytes(self.a, self.f)
    }

    /// The BC pair as a word.
    pub fn bc(&self) -> (r: u16)
        ensures
            r == word(self.b, self.c),
    {
        join_bytes(self.b, self.c)
    }

    /// The DE pair as a word.
    pub fn de(&self) -> (r: u16)
        ensures
            r == word(self.d, self.e),
    {
        join_bytes(self.d, self.e)
    }

    /// The HL pair as a word.
    pub fn hl(&self) -> (r: u16)
        ensures
            r == word(self.h, self.l),
    {
        join_bytes(self.h, self.l)
    }
}


// ============================================================================
// Laws of the register file
// ============================================================================

/// Reading back an 8-bit register gives what was written, except that F
/// keeps only its upper nibble; every other register is unchanged.
pub proof fn law_r8_read_back(r: RegisterState, reg: Reg8, v: u8, other: Reg8)
    ensures
        r.with_r8(reg, v).r8(reg) == if reg is F {
            v & 0xF0
        } else {
            v
        },
        other != reg ==> r.with_r8(reg, v).r8(other) == r.r8(other),
{
}

/// Reading back a register pair gives what was written, except that AF
/// keeps only the upper nibble of its low byte (the unused bits of F).
pub proof fn law_r16_read_back(r: RegisterState, reg: Reg16, v: u16)
    ensures
        r.with_r16(reg, v).r16(reg) == if reg is AF {
            v & 0xFFF0
        } else {
            v
        },
{
    lemma_word_split(v);
    if reg is AF {
        assert(word(hi_byte(v), lo_byte(v) & 0xF0) == v & 0xFFF0) by (bit_vector)
            requires
                word(hi_byte(v), lo_byte(v)) == v,
        ;
    }
}

/// Writing a register pair leaves the other pairs' values unchanged, the
/// pairs being disjoint (AF's F aside, which only AF covers).
pub proof fn law_r16_others(r: RegisterState, reg: Reg16, v: u16, other: Reg16)
    requires
        other != reg,
    ensures
        r.with_r16(reg, v).r16(other) == r.r16(other),
{
}

/// Incrementing a register pair and then decrementing it restores the
/// registers. (Not for AF: its write drops F's low nibble, so the increment
/// is lost and the decrement borrows from F's upper bits.)
pub proof fn law_inc_dec_r16(r: RegisterState, reg: Reg16)
    requires
        !(reg is AF),
    ensures
        ({
            let up = r.with_r16(reg, wrap16(r.r16(reg) + 1));
            up.with_r16(reg, wrap16(up.r16(reg) - 1))
        }) == r,
{
    let x = r.r16(reg);
    let y = wrap16(x + 1);
    law_r16_read_back(r, reg, y);
    assert(wrap16(y - 1) == x);
    lemma_word_join(r.b, r.c);
    lemma_word_join(r.d, r.e);
    lemma_word_join(r.h, r.l);
}

/// The flag byte of four flags reads back as those flags, with the low
/// nibble clear.
pub proof fn law_flag_byte(r: RegisterState, z: bool, n: bool, h: bool, c: bool)
    ensures
        r.with_f(flag_byte(z, n, h, c)).zf() == z,
        r.with_f(flag_byte(z, n, h, c)).nf() == n,
        r.with_f(flag_byte(z, n, h, c)).hf() == h,
        r.with_f(flag_byte(z, n, h, c)).cf() == c,
        flag_byte(z, n, h, c) & 0x0F == 0,
{
    assert((flag_byte(z, n, h, c) & 0x80 != 0) == z && (flag_byte(z, n, h, c) & 0x40 != 0) == n && (
    flag_byte(z, n, h, c) & 0x20 != 0) == h && (flag_byte(z, n, h, c) & 0x10 != 0) == c
        && flag_byte(z, n, h, c) & 0x0F == 0) by (bit_vector);
}

/// Setting one flag makes it read as set, keeps the other three, and keeps
/// every register but F.
pub proof fn law_set_flag(r: RegisterState, mask: u8, on: bool)
    requires
        mask == ZF_MASK || mask == NF_MASK || mask == HF_MASK || mask == CF_MASK,
    ensures
        r.with_f(update_bit(r.f, mask, on)).zf() == if mask == ZF_MASK {
            on
        } else {
            r.zf()
        },
        r.with_f(update_bit(r.f, mask, on)).nf() == if mask == NF_MASK {
            on
        } else {
            r.nf()
        },
        r.with_f(update_bit(r.f, mask, on)).hf() == if mask == HF_MASK {
            on
        } else {
            r.hf()
        },
        r.with_f(update_bit(r.f, mask, on)).cf() == if mask == CF_MASK {
            on
        } else {
            r.cf()
        },
{
    lemma_update_flag(r.f, mask, on);
}


// ============================================================================
// Text of the register file
// ============================================================================

/// `label` followed by `v` in `width` lower-case hex digits.
pub open spec fn hex_field(label: Seq<char>, v: nat, width: nat) -> Seq<char> {
    label + hex_text_lower(v, width)
}

fn append_hex_field(s: &mut String, label: &str, v: u16, width: u8)
    ensures
        final(s)@ == old(s)@ + hex_field(label@, v as nat, width as nat),
{
    s.append(label);
    append_hex_lower(s, v, width);
}

impl RegisterState {
    /// `PC:pppp SP:ssss A:aa F:ffff B:bb C:cc D:dd E:ee H:hh L:ll`: hex
    /// words and bytes, F in binary (at least four digits).
    pub open spec fn text(self) -> Seq<char> {
        hex_field("PC:"@, self.pc as nat, 4) + hex_field(" SP:"@, self.sp as nat, 4) + hex_field(
            " A:"@,
            self.a as nat,
            2,
        ) + " F:"@ + bin_text(self.f as nat, bin_width(self.f as nat, 4)) + hex_field(
            " B:"@,
            self.b as nat,
            2,
        ) + hex_field(" C:"@, self.c as nat, 2) + hex_field(" D:"@, self.d as nat, 2) + hex_field(
            " E:"@,
            self.e as nat,
            2,
        ) + hex_field(" H:"@, self.h as nat, 2) + hex_field(" L:"@, self.l as nat, 2)
    }

    /// The registers as text.
    pub fn to_string(&self) -> (r: String)
        ensures
            r@ == self.text(),
    {
        let mut s = String::new();
        append_hex_field(&mut s, "PC:", self.pc, 4);
        append_hex_field(&mut s, " SP:", self.sp, 4);
        append_hex_field(&mut s, " A:", self.a as u16, 2);
        s.append(" F:");
        append_bin_padded(&mut s, self.f as u16, 4);
        append_hex_field(&mut s, " B:", self.b as u16, 2);
        append_hex_field(&mut s, " C:", self.c as u16, 2);
        append_hex_field(&mut s, " D:", self.d as u16, 2);
        append_hex_field(&mut s, " E:", self.e as u16, 2);
        append_hex_field(&mut s, " H:", self.h as u16, 2);
        append_hex_field(&mut s, " L:", self.l as u16, 2);
        assert(s@ =~= self.text());
        s
    }
}

} // verus!
