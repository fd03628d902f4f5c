//! Single-precision numbers carried as bit patterns.
//!
//! Mesh coordinates, normals, sizes and colour channels pass through this
//! library without any arithmetic being done on them. They are held as the
//! 32 bits of an IEEE 754 binary32 value, and the only operations offered
//! are the ordering tests, which are exact functions of the bits.

use vstd::prelude::*;

verus! {

/// Two to the power 31: the weight of the sign bit.
pub const SIGN_WEIGHT: u32 = 0x8000_0000;

/// The magnitude bits of infinity; every larger magnitude is a NaN.
pub const INFINITY_MAGNITUDE: u32 = 0x7f80_0000;

/// An IEEE 754 binary32 value, held as its bit pattern.
#[derive(Clone, Copy, Debug, PartialEq, Eq, Structural)]
pub struct Scalar {
    pub bits: u32,
}

/// Three scalars: a position or a direction.
#[derive(Clone, Copy, Debug, PartialEq, Eq, Structural)]
pub struct Vec3 {
    pub x: Scalar,
    pub y: Scalar,
    pub z: Scalar,
}

/// One of the three coordinate axes.
#[derive(Clone, Copy, Debug, PartialEq, Eq, Structural)]
pub enum Axis {
    X,
    Y,
    Z,
}

impl Scalar {
    /// The exponent and fraction bits, read as a number: the bits without the sign.
    pub open spec fn magnitude(self) -> int {
        (self.bits as int) % 0x8000_0000
    }

    /// Whether the sign bit is set.
    pub open spec fn sign(self) -> bool {
        self.bits >= 0x8000_0000
    }

    /// Whether the value is not a number.
    pub open spec fn nan(self) -> bool {
        self.magnitude() > 0x7f80_0000
    }

    /// An integer that orders the numbers as their values do. Both zeros map to 0.
    pub open spec fn rank(self) -> int {
        if self.sign() {
            -self.magnitude()
        } else {
            self.magnitude()
        }
    }

    /// `self < other` on the values: false when either is a NaN.
    pub open spec fn less_than(self, other: Scalar) -> bool {
        !self.nan() && !other.nan() && self.rank() < other.rank()
    }

    /// `self >= other` on the values: false when either is a NaN.
    pub open spec fn at_least(self, other: Scalar) -> bool {
        !self.nan() && !other.nan() && self.rank() >= other.rank()
    }

    /// `|self| > |other|` on the values: false when either is a NaN.
    pub open spec fn abs_greater(self, other: Scalar) -> bool {
        !self.nan() && !other.nan() && self.magnitude() > other.magnitude()
    }

    /// Wraps a bit pattern.
    pub fn from_bits(bits: u32) -> (s: Scalar)
        ensures
            s.bits == bits,
    {
        Scalar { bits }
    }

    /// The bit pattern.
    pub fn to_bits(self) -> (bits: u32)
        ensures
            bits == self.bits,
    {
        self.bits
    }

    /// The bits without the sign.
    pub fn abs_bits(self) -> (m: u32)
        ensures
            m == self.magnitude(),
    {
        let bits: u32 = self.bits;
        assert(bits & 0x7fff_ffff == bits % 0x8000_0000) by (bit_vector);
        bits & 0x7fff_ffff
    }

    /// Whether the sign bit is set.
    pub fn is_sign_negative(self) -> (b: bool)
        ensures
            b == self.sign(),
    {
        self.bits >= SIGN_WEIGHT
    }

    /// Whether the value is not a number.
    pub fn is_nan(self) -> (b: bool)
        ensures
            b == self.nan(),
    {
        self.abs_bits() > INFINITY_MAGNITUDE
    }

    /// `self < other` on the values.
    pub fn lt(self, other: Scalar) -> (b: bool)
        ensures
            b == self.less_than(other),
    {
        if self.is_nan() || other.is_nan() {
            return false;
        }
        let a: u32 = self.abs_bits();
        let o: u32 = other.abs_bits();
        if self.is_sign_negative() {
            if other.is_sign_negative() {
                a > o
            } else {
                a != 0 || o != 0
            }
        } else {
            if other.is_sign_negative() {
                false
            } else {
                a < o
            }
        }
    }

    /// `self >= other` on the values.
    pub fn ge(self, other: Scalar) -> (b: bool)
        ensures
            b == self.at_least(other),
    {
        if self.is_nan() || other.is_nan() {
            return false;
        }
        !self.lt(other)
    }

    /// `|self| > |other|` on the values.
    pub fn abs_gt(self, other: Scalar) -> (b: bool)
        ensures
            b == self.abs_greater(other),
    {
        if self.is_nan() || other.is_nan() {
            return false;
        }
        self.abs_bits() > other.abs_bits()
    }
}

impl Vec3 {
    /// The component along `axis`.
    pub open spec fn component(self, axis: Axis) -> Scalar {
        match axis {
            Axis::X => self.x,
            Axis::Y => self.y,
            Axis::Z => self.z,
        }
    }

    /// Builds a vector from three bit patterns.
    pub fn from_bits(x: u32, y: u32, z: u32) -> (v: Vec3)
        ensures
            v.x.bits == x,
            v.y.bits == y,
            v.z.bits == z,
    {
        Vec3 { x: Scalar { bits: x }, y: Scalar { bits: y }, z: Scalar { bits: z } }
    }

    /// The component along `axis`.
    pub fn get(&self, axis: Axis) -> (s: Scalar)
        ensures
            s == self.component(axis),
    {
        match axis {
            Axis::X => self.x,
            Axis::Y => self.y,
            Axis::Z => self.z,
        }
    }
}

/// Of two comparable numbers exactly one of "less than" and "at least" holds;
/// with a NaN on either side neither does.
pub proof fn law_order_is_total_off_nan(a: Scalar, b: Scalar)
    ensures
        !(a.less_than(b) && a.at_least(b)),
        (a.nan() || b.nan()) <==> !(a.less_than(b) || a.at_least(b)),
{
}

} // verus!
