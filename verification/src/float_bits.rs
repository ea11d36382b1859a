//! Single-precision numbers as bit patterns.
//!
//! The draw data is full of IEEE 754 binary32 numbers. Almost all of them are
//! only carried from the UI layer to the device, so they are held here as
//! their 32 bits, and the one question asked of them, whether a number is
//! below zero, is answered on the bits.

use vstd::prelude::*;

verus! {

/// An IEEE 754 binary32 number, held as its bit pattern. Two values are equal
/// when their bits are equal.
#[derive(Clone, Copy, Debug, PartialEq, Eq, Hash)]
pub struct FloatBits(pub u32);

impl FloatBits {
    /// The sign bit is set.
    pub open spec fn sign(self) -> bool {
        self.0 >= 0x8000_0000
    }

    /// Exponent and fraction: the bits below the sign bit.
    pub open spec fn magnitude(self) -> int {
        self.0 as int % 0x8000_0000
    }

    /// An all-ones exponent with a non-zero fraction.
    pub open spec fn is_nan(self) -> bool {
        self.magnitude() > 0x7f80_0000
    }

    /// The number is less than zero: its sign is negative, and it is neither
    /// a zero nor a NaN. Negative infinity is below zero.
    pub open spec fn below_zero(self) -> bool {
        self.sign() && self.magnitude() != 0 && !self.is_nan()
    }

    /// Positive zero.
    pub fn zero() -> (z: FloatBits)
        ensures
            z == FloatBits(0),
    {
        FloatBits(0)
    }

    /// Whether the number compares less than zero.
    pub fn is_negative(self) -> (b: bool)
        ensures
            b == self.below_zero(),
    {
        0x8000_0000 < self.0 && self.0 <= 0xff80_0000
    }
}

} // verus!
