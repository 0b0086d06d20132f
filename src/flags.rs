//! Persistence, retention and caching flags of a stored value.

use vstd::prelude::*;

verus! {

/// The flag bit that marks a value for the engine's durable store.
pub const PERSISTENT_BIT: u32 = 1;
/// The flag bit that keeps a topic alive with no publishers.
pub const RETAINED_BIT: u32 = 2;
/// The flag bit that turns off the engine's latest-value cache.
pub const UNCACHED_BIT: u32 = 4;

/// A set of value flags, as the engine's bit mask.
#[derive(Debug, Clone, Copy, PartialEq, Eq, Structural, Hash)]
pub struct ValueFlags {
    bits: u32,
}

impl View for ValueFlags {
    type V = u32;

    closed spec fn view(&self) -> u32 {
        self.bits
    }
}

/// Whether the mask `bits` holds every bit of `flag`.
pub open spec fn has_bits(bits: u32, flag: u32) -> bool {
    bits & flag == flag
}

impl ValueFlags {
    /// No flags.
    pub fn empty() -> (r: Self)
        ensures
            r@ == 0,
    {
        ValueFlags { bits: 0 }
    }

    /// Marks a value for the engine's durable store.
    pub fn persistent() -> (r: Self)
        ensures
            r@ == PERSISTENT_BIT,
    {
        ValueFlags { bits: PERSISTENT_BIT }
    }

    /// Tells the server to keep the topic alive with no publishers.
    pub fn retained() -> (r: Self)
        ensures
            r@ == RETAINED_BIT,
    {
        ValueFlags { bits: RETAINED_BIT }
    }

    /// Turns off the engine's latest-value cache.
    pub fn uncached() -> (r: Self)
        ensures
            r@ == UNCACHED_BIT,
    {
        ValueFlags { bits: UNCACHED_BIT }
    }

    /// The flags of a bit mask, unknown bits included.
    pub fn from_bits_retain(bits: u32) -> (r: Self)
        ensures
            r@ == bits,
    {
        ValueFlags { bits }
    }

    /// The bit mask.
    pub fn bits(&self) -> (r: u32)
        ensures
            r == self@,
    {
        self.bits
    }

    /// Whether every flag of `other` is set here.
    pub fn contains(&self, other: Self) -> (r: bool)
        ensures
            r == has_bits(self@, other@),
    {
        self.bits & other.bits == other.bits
    }

    /// The flags set here or in `other`.
    pub fn union(self, other: Self) -> (r: Self)
        ensures
            r@ == self@ | other@,
    {
        ValueFlags { bits: self.bits | other.bits }
    }

    /// Sets the flags of `other` as well.
    pub fn insert(&mut self, other: Self)
        ensures
            final(self)@ == old(self)@ | other@,
    {
        self.bits = self.bits | other.bits;
    }
}

} // verus!
