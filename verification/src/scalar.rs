//! Double-precision numbers by their bit patterns.
//!
//! The geometry of an outline is floating-point work, and it is done by the
//! caller. What this library decides about a number (is it zero, is it
//! finite, which sign does it have, how does it compare with another) can be
//! read off the IEEE 754 encoding, and is stated and proved here over that
//! encoding.

use vstd::prelude::*;

verus! {

/// The bit that holds the sign.
pub const SIGN_BIT: u64 = 0x8000_0000_0000_0000;

/// The encoding of positive infinity. A magnitude above it encodes a NaN, a
/// magnitude below it a finite number.
pub const INFINITY_BITS: u64 = 0x7ff0_0000_0000_0000;

/// The encoding of `1.0`.
pub const ONE_BITS: u64 = 0x3ff0_0000_0000_0000;

/// A double-precision number of IEEE 754 (binary64), held by its bit pattern.
///
/// Two scalars are equal (`==`) when their bit patterns are. That is finer
/// than the numeric equality of IEEE 754, for which see [`Scalar::same_number`].
#[derive(Clone, Copy, Debug, PartialEq, Eq, Structural)]
pub struct Scalar {
    pub bits: u64,
}

impl Scalar {
    /// The encoding without its sign bit.
    pub open spec fn magnitude(self) -> int {
        if self.bits >= SIGN_BIT {
            self.bits - SIGN_BIT
        } else {
            self.bits as int
        }
    }

    /// Whether the sign bit is set. Holds of `-0.0` and of some NaNs too.
    pub open spec fn spec_is_sign_negative(self) -> bool {
        self.bits >= SIGN_BIT
    }

    /// Whether this is a NaN.
    pub open spec fn spec_is_nan(self) -> bool {
        self.magnitude() > INFINITY_BITS
    }

    /// Whether this is neither an infinity nor a NaN.
    pub open spec fn spec_is_finite(self) -> bool {
        self.magnitude() < INFINITY_BITS
    }

    /// Whether this is `0.0` or `-0.0`.
    pub open spec fn spec_is_zero(self) -> bool {
        self.magnitude() == 0
    }

    /// The place of a number that is no NaN in the order of all such numbers:
    /// the encodings of IEEE 754 are sign and magnitude, so among numbers of
    /// one sign the larger magnitude is the number further from zero. Both
    /// zeros have rank 0.
    pub open spec fn rank(self) -> int {
        if self.spec_is_sign_negative() {
            -self.magnitude()
        } else {
            self.magnitude()
        }
    }

    /// `self < other` as IEEE 754 defines it: false where either is a NaN.
    pub open spec fn spec_lt(self, other: Scalar) -> bool {
        !self.spec_is_nan() && !other.spec_is_nan() && self.rank() < other.rank()
    }

    /// `self <= other` as IEEE 754 defines it: false where either is a NaN.
    pub open spec fn spec_le(self, other: Scalar) -> bool {
        !self.spec_is_nan() && !other.spec_is_nan() && self.rank() <= other.rank()
    }

    /// `self == other` as IEEE 754 defines it: a NaN equals nothing, and the
    /// two zeros are equal.
    pub open spec fn spec_same_number(self, other: Scalar) -> bool {
        !self.spec_is_nan() && !other.spec_is_nan() && self.rank() == other.rank()
    }

    /// `self > 0.0`.
    pub open spec fn spec_is_positive(self) -> bool {
        !self.spec_is_nan() && self.rank() > 0
    }

    /// `self < 0.0`.
    pub open spec fn spec_is_negative(self) -> bool {
        !self.spec_is_nan() && self.rank() < 0
    }

    /// The number with the sign bit cleared.
    pub open spec fn spec_abs(self) -> Scalar {
        Scalar { bits: self.magnitude() as u64 }
    }

    /// The number with the sign bit flipped.
    pub open spec fn spec_negated(self) -> Scalar {
        if self.bits >= SIGN_BIT {
            Scalar { bits: (self.bits - SIGN_BIT) as u64 }
        } else {
            Scalar { bits: (self.bits + SIGN_BIT) as u64 }
        }
    }

    /// The number whose bit pattern is `bits`.
    pub fn from_bits(bits: u64) -> (s: Scalar)
        ensures
            s.bits == bits,
    {
        Scalar { bits }
    }

    /// The bit pattern.
    pub fn to_bits(self) -> (bits: u64)
        ensures
            bits == self.bits,
    {
        self.bits
    }

    /// `0.0`.
    pub fn zero() -> (s: Scalar)
        ensures
            s.bits == 0,
    {
        Scalar { bits: 0 }
    }

    /// `1.0`.
    pub fn one() -> (s: Scalar)
        ensures
            s.bits == ONE_BITS,
    {
        Scalar { bits: ONE_BITS }
    }

    fn magnitude_bits(self) -> (m: u64)
        ensures
            m == self.magnitude(),
            m < SIGN_BIT,
    {
        if self.bits >= SIGN_BIT {
            self.bits - SIGN_BIT
        } else {
            self.bits
        }
    }

    #[verifier::when_used_as_spec(spec_is_sign_negative)]
    pub fn is_sign_negative(self) -> (b: bool)
        ensures
            b == self.spec_is_sign_negative(),
    {
        self.bits >= SIGN_BIT
    }

    #[verifier::when_used_as_spec(spec_is_nan)]
    pub fn is_nan(self) -> (b: bool)
        ensures
            b == self.spec_is_nan(),
    {
        self.magnitude_bits() > INFINITY_BITS
    }

    #[verifier::when_used_as_spec(spec_is_finite)]
    pub fn is_finite(self) -> (b: bool)
        ensures
            b == self.spec_is_finite(),
    {
        self.magnitude_bits() < INFINITY_BITS
    }

    #[verifier::when_used_as_spec(spec_is_zero)]
    pub fn is_zero(self) -> (b: bool)
        ensures
            b == self.spec_is_zero(),
    {
        self.magnitude_bits() == 0
    }

    #[verifier::when_used_as_spec(spec_lt)]
    pub fn lt(self, other: Scalar) -> (b: bool)
        ensures
            b == self.spec_lt(other),
    {
        if self.is_nan() || other.is_nan() {
            false
        } else if self.is_sign_negative() {
            if other.is_sign_negative() {
                self.magnitude_bits() > other.magnitude_bits()
            } else {
                self.magnitude_bits() > 0 || other.magnitude_bits() > 0
            }
        } else {
            !other.is_sign_negative() && self.magnitude_bits() < other.magnitude_bits()
        }
    }

    #[verifier::when_used_as_spec(spec_le)]
    pub fn le(self, other: Scalar) -> (b: bool)
        ensures
            b == self.spec_le(other),
    {
        if self.is_nan() || other.is_nan() {
            false
        } else if self.is_sign_negative() {
            !other.is_sign_negative() || self.magnitude_bits() >= other.magnitude_bits()
        } else if other.is_sign_negative() {
            self.magnitude_bits() == 0 && other.magnitude_bits() == 0
        } else {
            self.magnitude_bits() <= other.magnitude_bits()
        }
    }

    #[verifier::when_used_as_spec(spec_same_number)]
    pub fn same_number(self, other: Scalar) -> (b: bool)
        ensures
            b == self.spec_same_number(other),
    {
        if self.is_nan() || other.is_nan() {
            false
        } else if self.magnitude_bits() == 0 {
            other.magnitude_bits() == 0
        } else {
            self.bits == other.bits
        }
    }

    #[verifier::when_used_as_spec(spec_is_positive)]
    pub fn is_positive(self) -> (b: bool)
        ensures
            b == self.spec_is_positive(),
            b == (Scalar { bits: 0 }).spec_lt(self),
    {
        !self.is_sign_negative() && 0 < self.bits && self.bits <= INFINITY_BITS
    }

    #[verifier::when_used_as_spec(spec_is_negative)]
    pub fn is_negative(self) -> (b: bool)
        ensures
            b == self.spec_is_negative(),
            b == self.spec_lt((Scalar { bits: 0 })),
    {
        let m: u64 = self.magnitude_bits();
        self.is_sign_negative() && 0 < m && m <= INFINITY_BITS
    }

    #[verifier::when_used_as_spec(spec_abs)]
    pub fn abs(self) -> (r: Scalar)
        ensures
            r == self.spec_abs(),
            !r.spec_is_sign_negative(),
            r.magnitude() == self.magnitude(),
    {
        Scalar { bits: self.magnitude_bits() }
    }

    #[verifier::when_used_as_spec(spec_negated)]
    pub fn negated(self) -> (r: Scalar)
        ensures
            r == self.spec_negated(),
            r.magnitude() == self.magnitude(),
            r.spec_is_sign_negative() != self.spec_is_sign_negative(),
    {
        if self.bits >= SIGN_BIT {
            Scalar { bits: self.bits - SIGN_BIT }
        } else {
            Scalar { bits: self.bits + SIGN_BIT }
        }
    }
}

/// Negation turns the order round: `a < b` exactly when `-b < -a`.
pub proof fn lemma_negation_reverses_order(a: Scalar, b: Scalar)
    ensures
        a.spec_lt(b) == b.spec_negated().spec_lt(a.spec_negated()),
        a.spec_negated().spec_negated() == a,
        a.spec_negated().spec_abs() == a.spec_abs(),
{
}

/// The order is that of a line: of two numbers that are no NaN, one is below
/// the other or they are the same number, and below is transitive.
pub proof fn lemma_order_is_total(a: Scalar, b: Scalar, c: Scalar)
    ensures
        !a.spec_is_nan() && !b.spec_is_nan() ==> a.spec_lt(b) || b.spec_lt(a)
            || a.spec_same_number(b),
        a.spec_lt(b) ==> !b.spec_le(a),
        a.spec_le(b) == (a.spec_lt(b) || a.spec_same_number(b)),
        a.spec_lt(b) && b.spec_lt(c) ==> a.spec_lt(c),
{
}

} // verus!
