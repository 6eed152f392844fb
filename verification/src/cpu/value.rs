//! A value of one width, byte or word, carried as such.

use vstd::prelude::*;

verus! {

/// A byte (`Value<u8>`) or a word (`Value<u16>`).
pub struct Value<T> {
    t: T,
}

impl<T> Value<T> {
    /// The value carried.
    pub closed spec fn inner(self) -> T {
        self.t
    }

    /// The value carrying `t`.
    pub closed spec fn holding(t: T) -> Value<T> {
        Value { t }
    }
}

/// A value gives back what it was made from.
pub proof fn law_value_round_trip<T>(t: T)
    ensures
        Value::holding(t).inner() == t,
{
}

impl vstd::std_specs::convert::FromSpecImpl<u8> for Value<u8> {
    open spec fn obeys_from_spec() -> bool {
        true
    }

    open spec fn from_spec(v: u8) -> Value<u8> {
        Value::holding(v)
    }
}

impl From<u8> for Value<u8> {
    fn from(v: u8) -> (r: Self) {
        Value { t: v }
    }
}

impl vstd::std_specs::convert::FromSpecImpl<u16> for Value<u16> {
    open spec fn obeys_from_spec() -> bool {
        true
    }

    open spec fn from_spec(v: u16) -> Value<u16> {
        Value::holding(v)
    }
}

impl From<u16> for Value<u16> {
    fn from(v: u16) -> (r: Self) {
        Value { t: v }
    }
}

impl Value<u8> {
    /// The byte carried.
    pub fn into_byte(self) -> (r: u8)
        ensures
            r == self.inner(),
    {
        self.t
    }
}

impl Value<u16> {
    /// The word carried.
    pub fn into_word(self) -> (r: u16)
        ensures
            r == self.inner(),
    {
        self.t
    }
}

} // verus!
