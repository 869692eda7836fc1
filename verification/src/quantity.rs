//! An engine real number, carried by bit pattern.
//!
//! The engine computes with IEEE-754 double-precision numbers, but this
//! layer never does arithmetic on them: coordinates, charges, temperatures
//! and results only travel through it, from the caller to the engine and
//! back.  A [`Real`] therefore holds the 64-bit pattern of one such number
//! and nothing else.  The embedder converts at the boundary; the only part
//! of the pattern this layer ever reads is the sign bit, which is the
//! high-order bit of the pattern.

use vstd::prelude::*;

verus! {

/// One engine real number (an IEEE-754 double), held as its raw bit
/// pattern and never interpreted here beyond its sign bit.
#[derive(Clone, Copy, Debug, PartialEq, Eq, Structural)]
pub struct Real {
    /// The IEEE-754 bit pattern of the number.
    pub bits: u64,
}

impl Real {
    /// Whether the sign bit is clear, i.e. the number is not negative.
    /// This mirrors the sign test on the double itself: the high-order
    /// bit of the pattern is the sign.
    pub open spec fn is_sign_positive(self) -> bool {
        self.bits < 0x8000_0000_0000_0000
    }

    /// Wraps a bit pattern.
    pub fn from_bits(bits: u64) -> (r: Real)
        ensures
            r.bits == bits,
    {
        Real { bits }
    }

    /// The pattern of positive zero.
    pub fn zero() -> (r: Real)
        ensures
            r.bits == 0,
            r.is_sign_positive(),
    {
        Real { bits: 0 }
    }

    /// Executable sign test; agrees with [`Real::is_sign_positive`].
    pub fn sign_positive(&self) -> (r: bool)
        ensures
            r == self.is_sign_positive(),
    {
        self.bits < 0x8000_0000_0000_0000
    }
}

} // verus!
