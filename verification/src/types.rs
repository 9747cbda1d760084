//! Numbers and coordinate pairs.
//!
//! Every coordinate, width and tolerance that passes through this crate is a
//! single-precision number carried by its IEEE 754 encoding. The crate never
//! does arithmetic on such a number: it stores it, hands it on, and tells
//! from the encoding alone whether it is zero or greater than zero.

use vstd::prelude::*;

verus! {

/// Encoding of positive infinity, the largest encoding of a number that is
/// greater than zero. Larger encodings with a clear sign bit are not numbers.
pub const POSITIVE_INFINITY_BITS: u32 = 0x7F80_0000;

/// Encoding of negative zero: the sign bit and no other.
pub const NEGATIVE_ZERO_BITS: u32 = 0x8000_0000;

/// A single-precision number, held by its IEEE 754 encoding: one sign bit,
/// eight exponent bits, twenty-three fraction bits.
#[derive(Clone, Copy, Debug, PartialEq, Eq, Structural)]
pub struct Scalar {
    pub bits: u32,
}

impl Scalar {
    /// Whether the encoded number is greater than zero: the sign bit is
    /// clear, some other bit is set, and the encoding is a number. Both zeros,
    /// every negative number and every encoding that is not a number are not
    /// positive; positive infinity is.
    pub open spec fn positive(self) -> bool {
        0 < self.bits <= POSITIVE_INFINITY_BITS
    }

    /// Whether the encoded number equals zero: it is positive zero or
    /// negative zero.
    pub open spec fn equals_zero(self) -> bool {
        self.bits == 0 || self.bits == NEGATIVE_ZERO_BITS
    }

    /// The number with the given encoding.
    pub fn from_bits(bits: u32) -> (r: Scalar)
        ensures
            r.bits == bits,
    {
        Scalar { bits }
    }

    /// The encoding of the number.
    pub fn to_bits(self) -> (r: u32)
        ensures
            r == self.bits,
    {
        self.bits
    }

    /// Positive zero, the number whose encoding has no bit set.
    pub fn zero() -> (r: Scalar)
        ensures
            r.bits == 0,
            !r.positive(),
    {
        Scalar { bits: 0 }
    }

    /// Decides `equals_zero` from the encoding.
    pub fn is_zero(self) -> (r: bool)
        ensures
            r == self.equals_zero(),
    {
        self.bits == 0 || self.bits == NEGATIVE_ZERO_BITS
    }

    /// Decides `positive` from the encoding.
    pub fn is_positive(self) -> (r: bool)
        ensures
            r == self.positive(),
    {
        0 < self.bits && self.bits <= POSITIVE_INFINITY_BITS
    }
}

/// A position in the plane.
#[derive(Clone, Copy, Debug, PartialEq, Eq, Structural)]
pub struct LyonPoint {
    pub x: Scalar,
    pub y: Scalar,
}

/// A displacement in the plane.
#[derive(Clone, Copy, Debug, PartialEq, Eq, Structural)]
pub struct LyonVector {
    pub x: Scalar,
    pub y: Scalar,
}

impl LyonPoint {
    /// The point whose coordinates are both positive zero, where a builder's
    /// pen rests before the first subpath begins.
    pub open spec fn origin() -> LyonPoint {
        LyonPoint { x: Scalar { bits: 0 }, y: Scalar { bits: 0 } }
    }

    /// The point with the given coordinates.
    pub fn new(x: Scalar, y: Scalar) -> (r: LyonPoint)
        ensures
            r == (LyonPoint { x, y }),
    {
        LyonPoint { x, y }
    }
}

impl LyonVector {
    /// The displacement that moves nothing: both components positive zero.
    pub open spec fn zero() -> LyonVector {
        LyonVector { x: Scalar { bits: 0 }, y: Scalar { bits: 0 } }
    }

    /// The displacement with the given components.
    pub fn new(x: Scalar, y: Scalar) -> (r: LyonVector)
        ensures
            r == (LyonVector { x, y }),
    {
        LyonVector { x, y }
    }
}

} // verus!
