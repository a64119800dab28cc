//! Single-precision numbers as bit patterns, and their order.

use vstd::prelude::*;

verus! {

/// Bit pattern of the sign bit alone.
pub const SIGN_BIT: u32 = 0x8000_0000;

/// Bit pattern of positive infinity; every larger magnitude is not a number.
pub const INFINITY_BITS: u32 = 0x7f80_0000;

/// A single-precision number, held by its IEEE 754 bit pattern: the sign in
/// the top bit, the magnitude (exponent and fraction) in the 31 bits below.
///
/// Two scalars are `==` when their bit patterns are the same, which is finer
/// than numeric equality: the two zeros differ, and a NaN equals itself.
#[derive(Clone, Copy, Debug, PartialEq, Eq, Structural)]
pub struct Scalar {
    pub bits: u32,
}

/// A vector of three scalars.
#[derive(Clone, Copy, Debug, PartialEq, Eq, Structural)]
pub struct Vector3 {
    pub x: Scalar,
    pub y: Scalar,
    pub z: Scalar,
}

/// A vector of two scalars.
#[derive(Clone, Copy, Debug, PartialEq, Eq, Structural)]
pub struct Vector2 {
    pub x: Scalar,
    pub y: Scalar,
}

impl Vector3 {
    /// The vector of three positive zeros.
    pub open spec fn spec_zero() -> Vector3 {
        Vector3 { x: Scalar::positive_zero(), y: Scalar::positive_zero(), z: Scalar::positive_zero() }
    }

    /// The vector of three positive zeros.
    #[verifier::when_used_as_spec(spec_zero)]
    pub fn zero() -> (v: Vector3)
        ensures
            v == Self::spec_zero(),
    {
        Vector3 { x: Scalar::positive_zero(), y: Scalar::positive_zero(), z: Scalar::positive_zero() }
    }
}

impl Vector2 {
    /// The vector of two positive zeros.
    pub open spec fn spec_zero() -> Vector2 {
        Vector2 { x: Scalar::positive_zero(), y: Scalar::positive_zero() }
    }

    /// The vector of two positive zeros.
    #[verifier::when_used_as_spec(spec_zero)]
    pub fn zero() -> (v: Vector2)
        ensures
            v == Self::spec_zero(),
    {
        Vector2 { x: Scalar::positive_zero(), y: Scalar::positive_zero() }
    }
}

/// A 4 by 4 matrix, column by column.
pub type Matrix = [[Scalar; 4]; 4];

impl Scalar {
    /// The low 31 bits, read as an integer.
    pub open spec fn magnitude(self) -> int {
        if self.bits >= SIGN_BIT {
            self.bits - SIGN_BIT
        } else {
            self.bits as int
        }
    }

    /// Whether the sign bit is set.
    pub open spec fn negative(self) -> bool {
        self.bits >= SIGN_BIT
    }

    /// Whether the pattern encodes no number.
    pub open spec fn nan(self) -> bool {
        self.magnitude() > INFINITY_BITS
    }

    /// Whether the pattern is one of the two zeros.
    pub open spec fn zero(self) -> bool {
        self.magnitude() == 0
    }

    /// The sign-magnitude integer of the pattern. On patterns that encode
    /// numbers (infinities included) it grows exactly as the number does, and
    /// both zeros map to 0.
    pub open spec fn order(self) -> int {
        if self.negative() {
            -self.magnitude()
        } else {
            self.magnitude()
        }
    }

    /// Numeric `<`: false as soon as either side is a NaN.
    pub open spec fn below(self, other: Scalar) -> bool {
        !self.nan() && !other.nan() && self.order() < other.order()
    }

    /// Positive zero.
    pub open spec fn spec_positive_zero() -> Scalar {
        Scalar { bits: 0 }
    }

    /// Positive zero.
    #[verifier::when_used_as_spec(spec_positive_zero)]
    pub fn positive_zero() -> (s: Scalar)
        ensures
            s == Self::spec_positive_zero(),
    {
        Scalar { bits: 0 }
    }

    pub fn from_bits(bits: u32) -> (s: Scalar)
        ensures
            s.bits == bits,
    {
        Scalar { bits }
    }

    pub fn to_bits(self) -> (bits: u32)
        ensures
            bits == self.bits,
    {
        self.bits
    }

    fn magnitude_bits(self) -> (m: u32)
        ensures
            m == self.magnitude(),
            m < SIGN_BIT,
    {
        if self.bits >= SIGN_BIT {
            self.bits - SIGN_BIT
        } else {
            self.bits
        }
    }

    pub fn is_nan(self) -> (r: bool)
        ensures
            r == self.nan(),
    {
        self.magnitude_bits() > INFINITY_BITS
    }

    pub fn is_zero(self) -> (r: bool)
        ensures
            r == self.zero(),
    {
        self.magnitude_bits() == 0
    }

    /// The order of the pattern as a machine integer.
    pub fn order_key(self) -> (k: i64)
        ensures
            k == self.order(),
            -(SIGN_BIT as int) < k < SIGN_BIT,
    {
        let m: i64 = self.magnitude_bits() as i64;
        if self.bits >= SIGN_BIT {
            -m
        } else {
            m
        }
    }

    pub fn less_than(self, other: Scalar) -> (r: bool)
        ensures
            r == self.below(other),
    {
        !self.is_nan() && !other.is_nan() && self.order_key() < other.order_key()
    }
}

/// On numbers, `below` is a strict order that is total up to the sign of
/// zero: two numbers are ordered one way or the other unless their orders
/// coincide, and never both ways.
pub proof fn lemma_below_is_strict_total(a: Scalar, b: Scalar, c: Scalar)
    ensures
        !a.below(a),
        a.below(b) ==> !b.below(a),
        a.below(b) && b.below(c) ==> a.below(c),
        !a.nan() && !b.nan() ==> (a.below(b) || b.below(a) || a.order() == b.order()),
{
}

} // verus!
