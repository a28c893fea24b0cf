//! The values that pass through the library: numbers, points and colours.
//!
//! The library never computes with a number. All it asks of one is whether
//! it is a finite number at all, and whether it is zero: both can be read off
//! the bit pattern.

use vstd::prelude::*;

verus! {

/// The bit pattern of positive infinity. Without the sign bit, the patterns
/// below it are the finite numbers; those above it are no numbers at all.
pub const INFINITY_BITS: u32 = 0x7F80_0000;

/// The sign bit of a bit pattern.
pub const SIGN_BIT: u32 = 0x8000_0000;

/// A single-precision number, carried by its IEEE-754 bit pattern: a sign
/// bit, eight bits of exponent and twenty-three bits of fraction (1.0 is
/// `0x3F80_0000`). Two scalars are equal when their bit patterns are.
#[derive(Clone, Copy, Debug, PartialEq, Eq, Structural)]
pub struct Scalar {
    pub bits: u32,
}

impl Scalar {
    /// The bit pattern without its sign bit.
    pub open spec fn magnitude_bits(self) -> int {
        self.bits as int % SIGN_BIT as int
    }

    /// Whether this is a finite number: neither an infinity nor a NaN.
    pub open spec fn finite(self) -> bool {
        self.magnitude_bits() < INFINITY_BITS
    }

    /// Whether this is zero, of either sign.
    pub open spec fn zero(self) -> bool {
        self.magnitude_bits() == 0
    }

    /// Whether this is a finite number above zero.
    pub open spec fn positive(self) -> bool {
        0 < self.bits < INFINITY_BITS
    }

    /// The scalar with the given bit pattern.
    pub fn from_bits(bits: u32) -> (s: Scalar)
        ensures
            s.bits == bits,
    {
        Scalar { bits }
    }

    /// The bit pattern of this scalar.
    pub fn to_bits(self) -> (bits: u32)
        ensures
            bits == self.bits,
    {
        self.bits
    }

    /// Whether this is a finite number: neither an infinity nor a NaN.
    pub fn is_finite(self) -> (finite: bool)
        ensures
            finite == self.finite(),
    {
        self.bits % SIGN_BIT < INFINITY_BITS
    }

    /// Whether this is zero, of either sign.
    pub fn is_zero(self) -> (zero: bool)
        ensures
            zero == self.zero(),
    {
        self.bits % SIGN_BIT == 0
    }

    /// Whether this is a finite number above zero.
    pub fn is_positive(self) -> (positive: bool)
        ensures
            positive == self.positive(),
    {
        0 < self.bits && self.bits < INFINITY_BITS
    }
}

/// A point or a direction in the plane.
#[derive(Clone, Copy, Debug, PartialEq, Eq, Structural)]
pub struct Vector2 {
    pub x: Scalar,
    pub y: Scalar,
}

impl Vector2 {
    /// Whether both parts are finite numbers.
    pub open spec fn finite(self) -> bool {
        self.x.finite() && self.y.finite()
    }

    /// Whether the vector points somewhere: both parts are finite numbers
    /// and not both are zero.
    pub open spec fn has_direction(self) -> bool {
        self.finite() && !(self.x.zero() && self.y.zero())
    }

    pub fn new(x: Scalar, y: Scalar) -> (v: Vector2)
        ensures
            v.x == x,
            v.y == y,
    {
        Vector2 { x, y }
    }

    /// Whether both parts are finite numbers.
    pub fn is_finite(self) -> (finite: bool)
        ensures
            finite == self.finite(),
    {
        self.x.is_finite() && self.y.is_finite()
    }

    /// Whether the vector points somewhere.
    pub fn is_direction(self) -> (direction: bool)
        ensures
            direction == self.has_direction(),
    {
        self.is_finite() && !(self.x.is_zero() && self.y.is_zero())
    }
}

/// A colour by its red, green, blue and alpha parts, each between 0.0 and 1.0.
#[derive(Clone, Copy, Debug, PartialEq, Eq, Structural)]
pub struct Color {
    pub r: Scalar,
    pub g: Scalar,
    pub b: Scalar,
    pub a: Scalar,
}

impl Color {
    pub fn new(r: Scalar, g: Scalar, b: Scalar, a: Scalar) -> (c: Color)
        ensures
            c.r == r,
            c.g == g,
            c.b == b,
            c.a == a,
    {
        Color { r, g, b, a }
    }
}

/// Finite, zero and positive in terms of the fields of a bit pattern: a
/// number is finite unless its eight exponent bits are all set, zero when
/// all bits but the sign are clear, and positive when it is finite, not zero
/// and its sign bit is clear.
pub proof fn lemma_finite_by_exponent(s: Scalar)
    ensures
        s.finite() <==> (s.bits >> 23) & 0xFF != 0xFF,
        s.zero() <==> s.bits & 0x7FFF_FFFF == 0,
        s.zero() ==> s.finite(),
        s.positive() <==> s.finite() && !s.zero() && s.bits & 0x8000_0000 == 0,
{
    let bits = s.bits;
    assert(bits % 0x8000_0000 < 0x7F80_0000 <==> (bits >> 23) & 0xFF != 0xFF) by (bit_vector);
    assert(bits % 0x8000_0000 == 0 <==> bits & 0x7FFF_FFFF == 0) by (bit_vector);
    assert((0 < bits && bits < 0x7F80_0000) <==> (bits % 0x8000_0000 < 0x7F80_0000 && bits
        % 0x8000_0000 != 0 && bits & 0x8000_0000 == 0)) by (bit_vector);
}

} // verus!
