//! Single-precision numbers as they travel in messages.

use vstd::prelude::*;

verus! {

/// A single-precision binary floating-point number, held as its 32-bit
/// IEEE 754 pattern. The library stores and forwards such numbers and never
/// computes with them; two scalars are equal when their patterns are.
#[derive(Debug, Clone, Copy, PartialEq, Eq, Hash, Structural)]
pub struct Scalar {
    /// The IEEE 754 binary32 pattern of the number.
    pub bits: u32,
}

/// Every bit of a binary32 pattern but the sign.
pub const MAGNITUDE_MASK: u32 = 0x7fff_ffff;

/// The pattern of one half.
pub const HALF_BITS: u32 = 0x3f00_0000;

impl Scalar {
    /// Whether the pattern stands for zero. Binary32 has two zeros, which
    /// differ in the sign bit alone; every other pattern, a not-a-number
    /// included, differs from zero.
    pub open spec fn zero_valued(self) -> bool {
        self.bits == 0 || self.bits == 0x8000_0000u32
    }

    /// The scalar with the given pattern.
    pub fn from_bits(bits: u32) -> (scalar: Scalar)
        ensures
            scalar.bits == bits,
    {
        Scalar { bits }
    }

    /// The pattern of the scalar.
    pub fn to_bits(&self) -> (bits: u32)
        ensures
            bits == self.bits,
    {
        self.bits
    }

    /// Positive zero.
    pub fn zero() -> (scalar: Scalar)
        ensures
            scalar.bits == 0,
            scalar.zero_valued(),
    {
        Scalar { bits: 0 }
    }

    /// One half, the middle of a normalized axis.
    pub fn half() -> (scalar: Scalar)
        ensures
            scalar.bits == HALF_BITS,
    {
        Scalar { bits: HALF_BITS }
    }

    /// Whether the scalar is a zero of either sign.
    pub fn is_zero(&self) -> (zero: bool)
        ensures
            zero == self.zero_valued(),
    {
        let bits: u32 = self.bits;
        let magnitude: u32 = bits & MAGNITUDE_MASK;
        assert(((bits & 0x7fff_ffffu32) == 0) == (bits == 0 || bits == 0x8000_0000u32))
            by (bit_vector);
        magnitude == 0
    }
}

} // verus!
