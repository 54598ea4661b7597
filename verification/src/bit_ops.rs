//! Single-bit access on bytes.

use vstd::prelude::*;

verus! {

/// Bit `bit` of `value`, as 0 or 1.
pub open spec fn bit_of(value: u8, bit: u8) -> u8 {
    (value & (1u8 << bit)) >> bit
}

/// `value` with bit `bit` forced to `on`.
pub open spec fn with_bit(value: u8, bit: u8, on: bool) -> u8 {
    if on {
        value | (1u8 << bit)
    } else {
        value & !(1u8 << bit)
    }
}

/// A bit read back is 0 or 1.
pub proof fn lemma_bit_is_binary(value: u8, bit: u8)
    by (bit_vector)
    requires
        bit < 8,
    ensures
        bit_of(value, bit) == 0 || bit_of(value, bit) == 1,
{
}

/// Writing a bit and reading it back gives what was written; every other
/// bit keeps its value.
pub proof fn lemma_with_bit_reads_back(value: u8, bit: u8, other: u8, on: bool)
    by (bit_vector)
    requires
        bit < 8,
        other < 8,
    ensures
        bit_of(with_bit(value, bit, on), bit) == (if on { 1u8 } else { 0u8 }),
        other != bit ==> bit_of(with_bit(value, bit, on), other) == bit_of(value, other),
{
}

/// Bit access on a value that holds a byte, with bits numbered 0 (least
/// significant) to 7.
pub trait BitOps: Sized {
    /// The byte that the value holds.
    spec fn byte(&self) -> u8;

    /// Bit `bit`, as 0 or 1.
    fn get_bit(&self, bit: u8) -> (value: u8)
        requires
            bit < 8,
        ensures
            value == bit_of(self.byte(), bit),
            value == 0 || value == 1,
    ;

    /// Sets bit `bit`.
    fn set_bit(&mut self, bit: u8)
        requires
            bit < 8,
        ensures
            final(self).byte() == with_bit(old(self).byte(), bit, true),
    ;

    /// Clears bit `bit`.
    fn clear_bit(&mut self, bit: u8)
        requires
            bit < 8,
        ensures
            final(self).byte() == with_bit(old(self).byte(), bit, false),
    ;
}

impl BitOps for u8 {
    open spec fn byte(&self) -> u8 {
        *self
    }

    fn get_bit(&self, bit: u8) -> (value: u8) {
        proof {
            lemma_bit_is_binary(*self, bit);
        }
        (*self & (1u8 << bit)) >> bit
    }

    fn set_bit(&mut self, bit: u8) {
        *self = *self | (1u8 << bit);
    }

    fn clear_bit(&mut self, bit: u8) {
        *self = *self & !(1u8 << bit);
    }
}

} // verus!
