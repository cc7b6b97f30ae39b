//! Double-precision numbers as bit patterns.
//!
//! Error probabilities, complexities and variances are carried through this
//! library but never computed with. They are held as IEEE 754 binary64 bit
//! patterns, on which the one operation that the key derivation needs, the
//! comparison `<`, is plain integer arithmetic.
use vstd::prelude::*;

verus! {

/// The bit that holds the sign of a binary64 number.
pub const SIGN_BIT: u64 = 0x8000_0000_0000_0000;

/// The pattern of positive infinity. Every larger magnitude is a NaN.
pub const INFINITY_BITS: u64 = 0x7FF0_0000_0000_0000;

/// The pattern of `1.0`.
pub const ONE_BITS: u64 = 0x3FF0_0000_0000_0000;

/// The pattern of the quiet NaN with an empty payload.
pub const NAN_BITS: u64 = 0x7FF8_0000_0000_0000;

/// A binary64 number, held as its 64 bits.
#[derive(Clone, Copy, Debug, PartialEq, Eq, Structural)]
pub struct Double {
    pub bits: u64,
}

impl Double {
    /// The sign bit is set (true of `-0.0` and of negative NaNs too).
    pub open spec fn is_sign_negative(self) -> bool {
        self.bits >= SIGN_BIT
    }

    /// The pattern without its sign bit: exponent and fraction.
    pub open spec fn magnitude(self) -> int {
        if self.bits >= SIGN_BIT {
            self.bits - SIGN_BIT
        } else {
            self.bits as int
        }
    }

    /// Not a number: the exponent is all ones and the fraction is not zero.
    pub open spec fn is_nan(self) -> bool {
        self.magnitude() > INFINITY_BITS
    }

    /// Where a number that is not a NaN stands on the number line, as an
    /// integer that grows with the number. Both zeros stand at 0.
    pub open spec fn rank(self) -> int {
        if self.is_sign_negative() {
            -self.magnitude()
        } else {
            self.magnitude()
        }
    }

    /// The IEEE 754 comparison `self < other`: false when either side is a
    /// NaN, and the order of the number line otherwise.
    pub open spec fn spec_lt(self, other: Double) -> bool {
        !self.is_nan() && !other.is_nan() && self.rank() < other.rank()
    }

    pub open spec fn spec_zero() -> Double {
        Double { bits: 0 }
    }

    pub open spec fn spec_one() -> Double {
        Double { bits: ONE_BITS }
    }

    pub open spec fn spec_nan() -> Double {
        Double { bits: NAN_BITS }
    }

    /// The number with the given bit pattern.
    pub fn from_bits(bits: u64) -> (d: Double)
        ensures
            d.bits == bits,
    {
        Double { bits }
    }

    /// The bit pattern of the number.
    pub fn to_bits(&self) -> (bits: u64)
        ensures
            bits == self.bits,
    {
        self.bits
    }

    /// Positive zero.
    pub fn zero() -> (d: Double)
        ensures
            d == Double::spec_zero(),
    {
        Double { bits: 0 }
    }

    /// The number one.
    pub fn one() -> (d: Double)
        ensures
            d == Double::spec_one(),
    {
        Double { bits: ONE_BITS }
    }

    /// A quiet NaN.
    pub fn nan() -> (d: Double)
        ensures
            d == Double::spec_nan(),
            d.is_nan(),
    {
        Double { bits: NAN_BITS }
    }

    /// Whether the number is a NaN.
    pub fn check_nan(&self) -> (b: bool)
        ensures
            b == self.is_nan(),
    {
        let magnitude: u64 = if self.bits >= SIGN_BIT {
            self.bits - SIGN_BIT
        } else {
            self.bits
        };
        magnitude > INFINITY_BITS
    }

    /// Whether `self < other` as IEEE 754 orders the two numbers.
    pub fn lt(&self, other: &Double) -> (b: bool)
        ensures
            b == self.spec_lt(*other),
    {
        if self.check_nan() || other.check_nan() {
            return false;
        }
        let self_negative: bool = self.bits >= SIGN_BIT;
        let other_negative: bool = other.bits >= SIGN_BIT;
        if self_negative && other_negative {
            // Of two negative numbers the one with the larger magnitude is
            // the smaller.
            self.bits > other.bits
        } else if self_negative {
            // A negative number is below a positive one, but -0.0 is not
            // below +0.0.
            self.bits > SIGN_BIT || other.bits > 0
        } else if other_negative {
            false
        } else {
            self.bits < other.bits
        }
    }
}

} // verus!
