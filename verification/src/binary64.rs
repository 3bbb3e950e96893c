//! IEEE 754 binary64 numbers as bit patterns, and the comparisons the
//! converter needs on them.

use vstd::prelude::*;

verus! {

/// The bit that holds the sign.
pub const SIGN_BIT: u64 = 0x8000_0000_0000_0000;

/// The bit pattern of positive infinity: every exponent bit set, no fraction bit.
pub const INFINITY_BITS: u64 = 0x7FF0_0000_0000_0000;

/// The encoding of 1.
pub const ONE: u64 = 0x3FF0_0000_0000_0000;

/// The encoding of 1000.
pub const THOUSAND: u64 = 0x408F_4000_0000_0000;

/// The encoding of the binary64 number nearest to 0.01.
pub const HUNDREDTH: u64 = 0x3F84_7AE1_47AE_147B;

/// The encoding of the binary64 number nearest to 0.001.
pub const THOUSANDTH: u64 = 0x3F50_624D_D2F1_A9FC;

/// A binary64 number, held as the 64 bits of its IEEE 754 encoding:
/// one sign bit, eleven exponent bits, fifty-two fraction bits.
///
/// `==` on this type compares encodings. [`Binary64::equals`] and
/// [`Binary64::same`] compare the numbers.
#[derive(Clone, Copy, Debug, PartialEq, Eq, Structural)]
pub struct Binary64 {
    pub bits: u64,
}

impl Binary64 {
    /// The encoding with the sign bit cleared.
    pub open spec fn magnitude(self) -> int {
        if self.bits >= SIGN_BIT {
            self.bits - SIGN_BIT
        } else {
            self.bits as int
        }
    }

    /// Not a number: all exponent bits set and some fraction bit set.
    pub open spec fn is_nan(self) -> bool {
        self.magnitude() > INFINITY_BITS
    }

    /// Positive or negative zero.
    pub open spec fn is_zero(self) -> bool {
        self.magnitude() == 0
    }

    /// Strictly greater than zero (positive infinity included).
    pub open spec fn is_positive(self) -> bool {
        0 < self.bits <= INFINITY_BITS
    }

    /// Equality of the two numbers as IEEE 754 defines it: a NaN equals
    /// nothing, the two zeros equal each other, and any other number equals
    /// only itself.
    pub open spec fn equals(self, other: Binary64) -> bool {
        &&& !self.is_nan()
        &&& !other.is_nan()
        &&& (self.bits == other.bits || (self.is_zero() && other.is_zero()))
    }

    fn abs_bits(&self) -> (m: u64)
        ensures
            m == self.magnitude(),
    {
        if self.bits >= SIGN_BIT {
            self.bits - SIGN_BIT
        } else {
            self.bits
        }
    }

    /// Whether the number is strictly greater than zero.
    pub fn positive(&self) -> (b: bool)
        ensures
            b == self.is_positive(),
    {
        0 < self.bits && self.bits <= INFINITY_BITS
    }

    /// Whether the two numbers are equal as numbers.
    pub fn same(&self, other: &Binary64) -> (b: bool)
        ensures
            b == self.equals(*other),
    {
        let a: u64 = self.abs_bits();
        let b: u64 = other.abs_bits();
        a <= INFINITY_BITS && b <= INFINITY_BITS && (self.bits == other.bits || (a == 0 && b == 0))
    }
}

} // verus!
