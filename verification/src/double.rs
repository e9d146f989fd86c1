//! Double-precision numbers, carried by their bits.
//!
//! The library moves coordinates and ages about and compares them; the arithmetic
//! on them belongs to the program around it.

use vstd::prelude::*;

verus! {

/// The bits of `1.0`.
pub const ONE_BITS: u64 = 0x3ff0_0000_0000_0000;

/// The bits of `2.0`.
pub const TWO_BITS: u64 = 0x4000_0000_0000_0000;

/// The bits of `10.0`.
pub const TEN_BITS: u64 = 0x4024_0000_0000_0000;

/// A double-precision number in the encoding of IEEE 754: the sign in the highest
/// bit, the magnitude in the rest.
#[derive(Clone, Copy, Debug, PartialEq, Eq, Structural)]
pub struct Double {
    pub bits: u64,
}

impl Double {
    /// The number's magnitude, as the integer that its bits below the sign make up.
    pub open spec fn magnitude(self) -> int {
        if self.bits < 0x8000_0000_0000_0000 {
            self.bits as int
        } else {
            self.bits - 0x8000_0000_0000_0000
        }
    }

    pub open spec fn is_nan(self) -> bool {
        self.magnitude() > 0x7ff0_0000_0000_0000
    }

    /// An integer that orders the numbers as their values do. Both zeros have 0.
    pub open spec fn rank(self) -> int {
        if self.bits < 0x8000_0000_0000_0000 {
            self.magnitude()
        } else {
            -self.magnitude()
        }
    }

    /// `self <= other`, as for floating-point numbers: false where one is not a number.
    pub open spec fn le(self, other: Double) -> bool {
        !self.is_nan() && !other.is_nan() && self.rank() <= other.rank()
    }

    /// `self > 0`.
    pub open spec fn positive(self) -> bool {
        !self.is_nan() && self.rank() > 0
    }

    /// The number zero.
    pub fn zero() -> (r: Double)
        ensures
            r == (Double { bits: 0 }),
    {
        Double { bits: 0 }
    }

    /// The number one.
    pub fn one() -> (r: Double)
        ensures
            r == (Double { bits: ONE_BITS }),
    {
        Double { bits: ONE_BITS }
    }

    fn exec_rank(self) -> (r: i128)
        ensures
            r == self.rank(),
    {
        if self.bits < 0x8000_0000_0000_0000 {
            self.bits as i128
        } else {
            -((self.bits - 0x8000_0000_0000_0000) as i128)
        }
    }

    fn exec_is_nan(self) -> (r: bool)
        ensures
            r == self.is_nan(),
    {
        if self.bits < 0x8000_0000_0000_0000 {
            self.bits > 0x7ff0_0000_0000_0000
        } else {
            self.bits - 0x8000_0000_0000_0000 > 0x7ff0_0000_0000_0000
        }
    }

    pub fn at_most(self, other: Double) -> (r: bool)
        ensures
            r == self.le(other),
    {
        !self.exec_is_nan() && !other.exec_is_nan() && self.exec_rank() <= other.exec_rank()
    }

    pub fn is_positive(self) -> (r: bool)
        ensures
            r == self.positive(),
    {
        !self.exec_is_nan() && self.exec_rank() > 0
    }
}

/// The numbers are ordered as their values are: of two positive ones the one with the
/// larger bits is the larger, of two negative ones the other way round, every negative
/// one is at most every positive one, both zeros are equal, and what is not a number is
/// at most nothing.
pub proof fn law_doubles_are_ordered(a: Double, b: Double)
    ensures
        a.is_nan() || b.is_nan() ==> !a.le(b),
        !a.is_nan() && !b.is_nan() ==> a.le(b) || b.le(a),
        !a.is_nan() && !b.is_nan() && a.bits < 0x8000_0000_0000_0000 && b.bits
            < 0x8000_0000_0000_0000 ==> (a.le(b) <==> a.bits <= b.bits),
        !a.is_nan() && !b.is_nan() && a.bits >= 0x8000_0000_0000_0000 && b.bits
            >= 0x8000_0000_0000_0000 ==> (a.le(b) <==> a.bits >= b.bits),
        !a.is_nan() && !b.is_nan() && a.bits >= 0x8000_0000_0000_0000 && b.bits
            < 0x8000_0000_0000_0000 ==> a.le(b),
        (Double { bits: 0 }).le(Double { bits: 0x8000_0000_0000_0000 }),
{
}

/// What is not a number has all bits of the exponent set and some of the fraction, with
/// either sign.
pub proof fn law_what_is_no_number(a: Double)
    ensures
        a.is_nan() <==> 0x7ff0_0000_0000_0000 < a.bits < 0x8000_0000_0000_0000 || a.bits
            > 0xfff0_0000_0000_0000,
{
}

/// The positive numbers are those above zero, up to and with infinity.
pub proof fn law_positive_numbers(a: Double)
    ensures
        a.positive() <==> 0 < a.bits <= 0x7ff0_0000_0000_0000,
        a.positive() <==> !a.is_nan() && !a.le(Double { bits: 0 }),
{
}

} // verus!
