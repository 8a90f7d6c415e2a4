//! Double precision numbers as the logic sees them: values that are carried,
//! compared and put in order, and never computed on.

use vstd::prelude::*;

verus! {

/// Bit pattern of the sign of a double, and of nothing else.
pub const SIGN_BIT: u64 = 0x8000_0000_0000_0000;

/// Bit pattern of positive infinity. A magnitude past it is not a number.
pub const INFINITY_BITS: u64 = 0x7FF0_0000_0000_0000;

/// A double precision number, held as its IEEE 754 bit pattern.
#[derive(Clone, Copy, Debug)]
pub struct Scalar {
    /// The bit pattern, sign in the top bit.
    pub bits: u64,
}

/// Bit pattern of one.
pub const ONE_BITS: u64 = 0x3FF0_0000_0000_0000;

impl Scalar {
    /// The bits below the sign, which order the numbers of one sign.
    pub open spec fn magnitude(self) -> int {
        if self.bits >= SIGN_BIT {
            self.bits - SIGN_BIT
        } else {
            self.bits as int
        }
    }

    /// True for a value that is not a number.
    pub open spec fn nan(self) -> bool {
        self.magnitude() > INFINITY_BITS
    }

    /// True for a number that is not infinite.
    pub open spec fn finite(self) -> bool {
        self.magnitude() < INFINITY_BITS
    }

    /// Where the number stands among the numbers. Both zeros stand at zero.
    pub open spec fn rank(self) -> int {
        if self.bits >= SIGN_BIT {
            -self.magnitude()
        } else {
            self.magnitude()
        }
    }

    /// `self < other`, which nothing that is not a number ever is.
    pub open spec fn below(self, other: Scalar) -> bool {
        !self.nan() && !other.nan() && self.rank() < other.rank()
    }

    /// `self <= other`, which nothing that is not a number ever is.
    pub open spec fn at_most(self, other: Scalar) -> bool {
        !self.nan() && !other.nan() && self.rank() <= other.rank()
    }

    /// `self == other`: equal numbers, the two zeros being one number.
    pub open spec fn equals(self, other: Scalar) -> bool {
        !self.nan() && !other.nan() && self.rank() == other.rank()
    }

    /// Where the value stands in the total order over every bit pattern, which
    /// tells the zeros apart and puts what is not a number at both ends.
    pub open spec fn total_rank(self) -> int {
        if self.bits >= SIGN_BIT {
            -self.magnitude() - 1
        } else {
            self.magnitude()
        }
    }

    /// True for a value that is not a number.
    pub fn is_nan(self) -> (answer: bool)
        ensures
            answer == self.nan(),
    {
        if self.bits >= SIGN_BIT {
            self.bits - SIGN_BIT > INFINITY_BITS
        } else {
            self.bits > INFINITY_BITS
        }
    }

    /// True for a number that is neither infinite nor not a number.
    pub fn is_finite(self) -> (answer: bool)
        ensures
            answer == self.finite(),
    {
        if self.bits >= SIGN_BIT {
            self.bits - SIGN_BIT < INFINITY_BITS
        } else {
            self.bits < INFINITY_BITS
        }
    }

    /// `self < other`.
    pub fn lt(self, other: Scalar) -> (answer: bool)
        ensures
            answer == self.below(other),
    {
        !self.is_nan() && !other.is_nan() && self.key() < other.key()
    }

    /// `self <= other`.
    pub fn le(self, other: Scalar) -> (answer: bool)
        ensures
            answer == self.at_most(other),
    {
        !self.is_nan() && !other.is_nan() && self.key() <= other.key()
    }

    /// `self == other`.
    pub fn same(self, other: Scalar) -> (answer: bool)
        ensures
            answer == self.equals(other),
    {
        !self.is_nan() && !other.is_nan() && self.key() == other.key()
    }

    /// `self` before `other` in the total order, or level with it.
    pub fn total_le(self, other: Scalar) -> (answer: bool)
        ensures
            answer == (self.total_rank() <= other.total_rank()),
    {
        if self.bits >= SIGN_BIT {
            if other.bits >= SIGN_BIT {
                self.bits >= other.bits
            } else {
                true
            }
        } else if other.bits >= SIGN_BIT {
            false
        } else {
            self.bits <= other.bits
        }
    }

    /// The number without its sign.
    pub fn abs(self) -> (size: Scalar)
        ensures
            size.bits == self.magnitude(),
    {
        if self.bits >= SIGN_BIT {
            Scalar { bits: self.bits - SIGN_BIT }
        } else {
            self
        }
    }

    /// [`Scalar::rank`] as a machine integer.
    fn key(self) -> (key: i64)
        ensures
            key == self.rank(),
    {
        if self.bits >= SIGN_BIT {
            -((self.bits - SIGN_BIT) as i64)
        } else {
            self.bits as i64
        }
    }
}

} // verus!
