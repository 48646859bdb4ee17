//! Double-precision scalars, held by their IEEE 754 bit pattern.
//!
//! The renderer never needs the arithmetic of a scalar to take a decision,
//! only its order.  A `Scalar` therefore carries the 64 bits of a binary64
//! value, and this module states the IEEE 754 comparison predicates directly
//! on those bits: a value is its sign and its magnitude, every ordered
//! comparison with a NaN is false, and the two zeros are equal.

use vstd::prelude::*;

verus! {

/// The sign bit of a binary64 value.
pub const SIGN_MASK: u64 = 0x8000_0000_0000_0000;

/// Bits of positive infinity; a larger magnitude is a NaN.
pub const INFINITY_BITS: u64 = 0x7FF0_0000_0000_0000;

/// Bits of `1.0`.
pub const ONE_BITS: u64 = 0x3FF0_0000_0000_0000;

/// Bits of the machine epsilon, `2^-52`.
pub const EPSILON_BITS: u64 = 0x3CB0_0000_0000_0000;

/// Bits of `1.0 + 2^-52`, the successor of one.
pub const ONE_PLUS_EPSILON_BITS: u64 = 0x3FF0_0000_0000_0001;

/// A binary64 value, stored as its bit pattern.
#[derive(Clone, Copy, Debug)]
pub struct Scalar {
    pub bits: u64,
}

impl Scalar {
    /// The sign bit is set (true of `-0.0` and of negative NaNs too).
    pub open spec fn sign_negative(self) -> bool {
        self.bits >= SIGN_MASK
    }

    /// The bits without the sign bit, read as an integer.
    pub open spec fn magnitude(self) -> int {
        if self.bits >= SIGN_MASK {
            self.bits - SIGN_MASK
        } else {
            self.bits as int
        }
    }

    /// The value is a NaN: its magnitude lies above that of infinity.
    pub open spec fn nan(self) -> bool {
        self.magnitude() > INFINITY_BITS
    }

    /// An integer that orders the non-NaN values as IEEE 754 does: the
    /// magnitude, negated where the sign bit is set.  Both zeros rank 0.
    pub open spec fn rank(self) -> int {
        if self.sign_negative() {
            -self.magnitude()
        } else {
            self.magnitude()
        }
    }

    /// IEEE 754 `<`.
    pub open spec fn spec_lt(self, other: Scalar) -> bool {
        !self.nan() && !other.nan() && self.rank() < other.rank()
    }

    /// IEEE 754 `<=`.
    pub open spec fn spec_le(self, other: Scalar) -> bool {
        !self.nan() && !other.nan() && self.rank() <= other.rank()
    }

    /// IEEE 754 `>`.
    pub open spec fn spec_gt(self, other: Scalar) -> bool {
        other.spec_lt(self)
    }

    /// IEEE 754 `>=`.
    pub open spec fn spec_ge(self, other: Scalar) -> bool {
        other.spec_le(self)
    }

    /// The value lies in the closed interval from zero to one.
    pub open spec fn in_unit_interval(self) -> bool {
        Scalar::zero().spec_le(self) && self.spec_le(Scalar::one())
    }

    /// The value lies in the unit interval widened by the machine epsilon
    /// on both sides: `-2^-52 <= self <= 1 + 2^-52`.
    pub open spec fn spec_near_unit_interval(self) -> bool {
        &&& !self.nan()
        &&& -(EPSILON_BITS as int) <= self.rank()
        &&& self.rank() <= ONE_PLUS_EPSILON_BITS
    }

    /// The magnitude is at most the machine epsilon.
    pub open spec fn spec_negligible(self) -> bool {
        self.magnitude() <= EPSILON_BITS
    }

    /// `0.0`.
    pub open spec fn zero() -> Scalar {
        Scalar { bits: 0 }
    }

    /// `1.0`.
    pub open spec fn one() -> Scalar {
        Scalar { bits: ONE_BITS }
    }

    /// The scalar with the given bit pattern.
    pub fn from_bits(bits: u64) -> (s: Scalar)
        ensures
            s.bits == bits,
    {
        Scalar { bits }
    }

    /// The bit pattern of the scalar.
    pub fn to_bits(self) -> (bits: u64)
        ensures
            bits == self.bits,
    {
        self.bits
    }

    fn magnitude_bits(self) -> (m: u64)
        ensures
            m == self.magnitude(),
            m < SIGN_MASK,
    {
        if self.bits >= SIGN_MASK {
            self.bits - SIGN_MASK
        } else {
            self.bits
        }
    }

    /// Whether the value is a NaN.
    #[verifier::when_used_as_spec(nan)]
    pub fn is_nan(self) -> (r: bool)
        ensures
            r == self.nan(),
    {
        self.magnitude_bits() > INFINITY_BITS
    }

    /// IEEE 754 `self < other`.
    #[verifier::when_used_as_spec(spec_lt)]
    pub fn lt(self, other: Scalar) -> (r: bool)
        ensures
            r == self.spec_lt(other),
    {
        let a: u64 = self.magnitude_bits();
        let b: u64 = other.magnitude_bits();
        if a > INFINITY_BITS || b > INFINITY_BITS {
            false
        } else if self.bits >= SIGN_MASK {
            if other.bits >= SIGN_MASK {
                b < a
            } else {
                a > 0 || b > 0
            }
        } else {
            other.bits < SIGN_MASK && a < b
        }
    }

    /// IEEE 754 `self <= other`.
    #[verifier::when_used_as_spec(spec_le)]
    pub fn le(self, other: Scalar) -> (r: bool)
        ensures
            r == self.spec_le(other),
    {
        let a: u64 = self.magnitude_bits();
        let b: u64 = other.magnitude_bits();
        if a > INFINITY_BITS || b > INFINITY_BITS {
            false
        } else if self.bits >= SIGN_MASK {
            other.bits < SIGN_MASK || b <= a
        } else if other.bits >= SIGN_MASK {
            a == 0 && b == 0
        } else {
            a <= b
        }
    }

    /// IEEE 754 `self > other`.
    #[verifier::when_used_as_spec(spec_gt)]
    pub fn gt(self, other: Scalar) -> (r: bool)
        ensures
            r == self.spec_gt(other),
    {
        other.lt(self)
    }

    /// IEEE 754 `self >= other`.
    #[verifier::when_used_as_spec(spec_ge)]
    pub fn ge(self, other: Scalar) -> (r: bool)
        ensures
            r == self.spec_ge(other),
    {
        other.le(self)
    }

    /// The absolute value: the same bits with the sign bit cleared.
    pub open spec fn abs_spec(self) -> Scalar {
        Scalar { bits: self.magnitude() as u64 }
    }

    /// The opposite value: the same bits with the sign bit flipped.
    pub open spec fn neg_spec(self) -> Scalar {
        if self.bits >= SIGN_MASK {
            Scalar { bits: (self.bits - SIGN_MASK) as u64 }
        } else {
            Scalar { bits: (self.bits + SIGN_MASK) as u64 }
        }
    }

    /// The absolute value.
    #[verifier::when_used_as_spec(abs_spec)]
    pub fn abs(self) -> (r: Scalar)
        ensures
            r == self.abs_spec(),
            r.nan() == self.nan(),
            !self.nan() ==> r.rank() == self.magnitude() && Scalar::zero().spec_le(r),
    {
        Scalar { bits: self.magnitude_bits() }
    }

    /// The opposite value.
    #[verifier::when_used_as_spec(neg_spec)]
    pub fn neg(self) -> (r: Scalar)
        ensures
            r == self.neg_spec(),
            r.nan() == self.nan(),
            r.rank() == -self.rank(),
    {
        if self.bits >= SIGN_MASK {
            Scalar { bits: self.bits - SIGN_MASK }
        } else {
            Scalar { bits: self.bits + SIGN_MASK }
        }
    }

    /// Whether the value is zero up to the machine epsilon:
    /// `-2^-52 <= self <= 2^-52`.
    #[verifier::when_used_as_spec(spec_negligible)]
    pub fn negligible(self) -> (r: bool)
        ensures
            r == self.spec_negligible(),
            r == (Scalar { bits: EPSILON_BITS }.neg_spec().spec_le(self) && self.spec_le(
                Scalar { bits: EPSILON_BITS },
            )),
    {
        self.magnitude_bits() <= EPSILON_BITS
    }

    /// Whether the value lies in the unit interval up to the machine
    /// epsilon: `-2^-52 <= self <= 1 + 2^-52`.
    #[verifier::when_used_as_spec(spec_near_unit_interval)]
    pub fn near_unit_interval(self) -> (r: bool)
        ensures
            r == self.spec_near_unit_interval(),
            self.in_unit_interval() ==> r,
    {
        let m: u64 = self.magnitude_bits();
        if self.bits >= SIGN_MASK {
            m <= EPSILON_BITS
        } else {
            m <= ONE_PLUS_EPSILON_BITS
        }
    }
}

/// Clamps a value into the unit interval: what lies below zero becomes
/// zero, what lies above one becomes one, everything else (a NaN included)
/// is returned as it is.
pub open spec fn clamped(val: Scalar) -> Scalar {
    if val.spec_lt(Scalar::zero()) {
        Scalar::zero()
    } else if val.spec_gt(Scalar::one()) {
        Scalar::one()
    } else {
        val
    }
}

/// Clamps a value into the unit interval.
pub fn unit_interval_clamp(val: Scalar) -> (r: Scalar)
    ensures
        r == clamped(val),
        !val.nan() ==> r.in_unit_interval(),
        val.in_unit_interval() ==> r == val,
        val.nan() ==> r == val,
{
    if val.lt(Scalar { bits: 0 }) {
        Scalar { bits: 0 }
    } else if val.gt(Scalar { bits: ONE_BITS }) {
        Scalar { bits: ONE_BITS }
    } else {
        val
    }
}

} // verus!
