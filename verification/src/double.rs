//! Double-precision numbers as a store holds them: 64-bit patterns,
//! compared through an integer key so that no arithmetic on the numbers
//! themselves is needed.

use vstd::prelude::*;

verus! {

/// The pattern whose only set bit is the sign.
pub const SIGN_BIT: u64 = 0x8000_0000_0000_0000;

/// A double-precision number, held by its bit pattern.
#[derive(Clone, Copy, Debug, PartialEq, Eq, Structural)]
pub struct Double {
    pub bits: u64,
}

impl Double {
    /// The integer that orders this number among the others: the magnitude
    /// bits, negated when the sign bit is set. Both zeros share the key 0;
    /// on patterns that encode numbers, a smaller number has a smaller key.
    /// Patterns that encode no number are ordered by the same rule and fall
    /// beyond the infinities.
    pub open spec fn key(self) -> int {
        if self.bits < SIGN_BIT {
            self.bits as int
        } else {
            SIGN_BIT - self.bits
        }
    }

    /// The number with the given bit pattern.
    pub fn from_bits(bits: u64) -> (r: Double)
        ensures
            r.bits == bits,
    {
        Double { bits }
    }

    /// The bit pattern of the number.
    pub fn to_bits(&self) -> (bits: u64)
        ensures
            bits == self.bits,
    {
        self.bits
    }

    /// Computes the key.
    pub fn order_key(&self) -> (k: i64)
        ensures
            k == self.key(),
    {
        if self.bits < SIGN_BIT {
            self.bits as i64
        } else {
            let magnitude: u64 = self.bits - SIGN_BIT;
            -(magnitude as i64)
        }
    }
}

} // verus!
