//! Where an operand lives, and the value a read of it gives.

use crate::instructions::Register;
use vstd::prelude::*;

verus! {

/// An operand location: memory through a register, a register, the
/// instruction stream, or high memory.
#[derive(Debug, PartialEq, Eq, Copy, Clone, Hash, Structural)]
pub enum Address {
    Memory(Register),
    Register(Register),
    ImmediateByte,  // Bytes
    ImmediateWord,  // Words
    MemOffsetImm,
    MemoryImmediate,
    MemOffsetC,
}

/// Result of a read operation.
#[derive(Debug, PartialEq, Eq, Copy, Clone, Structural)]
pub enum Read {
    Byte(u8),
    Word(u16),
}

impl Address {
    /// A register location holding a word register.
    pub fn is_word_register(self) -> (r: bool)
        ensures
            r == (self matches Address::Register(reg) && (reg is HL || reg is BC || reg is DE
                || reg is SP)),
    {
        match self {
            Address::Register(r) => r.is_word_register(),
            _ => false,
        }
    }
}

impl vstd::std_specs::convert::FromSpecImpl<Read> for u8 {
    open spec fn obeys_from_spec() -> bool {
        true
    }

    /// A byte as read; a word cut to its low byte.
    open spec fn from_spec(val: Read) -> u8 {
        match val {
            Read::Byte(x) => x,
            Read::Word(x) => x as u8,
        }
    }
}

impl From<Read> for u8 {
    fn from(val: Read) -> (r: Self) {
        #[allow(clippy::cast_possible_truncation)]
        match val {
            Read::Byte(x) => x,
            Read::Word(x) => x as u8,
        }
    }
}

impl vstd::std_specs::convert::FromSpecImpl<Read> for u16 {
    open spec fn obeys_from_spec() -> bool {
        true
    }

    /// A byte widened; a word as read.
    open spec fn from_spec(val: Read) -> u16 {
        match val {
            Read::Byte(x) => x as u16,
            Read::Word(x) => x,
        }
    }
}

impl From<Read> for u16 {
    fn from(val: Read) -> (r: Self) {
        match val {
            Read::Byte(x) => x as u16,
            Read::Word(x) => x,
        }
    }
}

impl vstd::std_specs::convert::FromSpecImpl<u8> for Read {
    open spec fn obeys_from_spec() -> bool {
        true
    }

    open spec fn from_spec(val: u8) -> Read {
        Read::Byte(val)
    }
}

impl From<u8> for Read {
    fn from(val: u8) -> (r: Self) {
        Read::Byte(val)
    }
}

impl vstd::std_specs::convert::FromSpecImpl<u16> for Read {
    open spec fn obeys_from_spec() -> bool {
        true
    }

    open spec fn from_spec(val: u16) -> Read {
        Read::Word(val)
    }
}

impl From<u16> for Read {
    fn from(val: u16) -> (r: Self) {
        Read::Word(val)
    }
}

} // verus!
