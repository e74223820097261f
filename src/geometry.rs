use vstd::prelude::*;

verus! {

/// An IEEE-754 binary64 value held by its bit pattern.
///
/// The library carries coordinates, radii and widths through unchanged; the only
/// question it asks of one is whether it is strictly positive.
#[derive(Clone, Copy, Debug, PartialEq, Eq, Structural)]
pub struct F64Bits {
    pub bits: u64,
}

/// The bit pattern of positive infinity; every pattern at or below it with the
/// sign bit clear, except zero, is a positive number.
pub const POSITIVE_INFINITY_BITS: u64 = 0x7FF0_0000_0000_0000;

impl F64Bits {
    /// The value compares greater than `0.0`: sign bit clear, not zero, not NaN.
    pub open spec fn spec_is_positive(self) -> bool {
        0 < self.bits && self.bits <= POSITIVE_INFINITY_BITS
    }

    pub fn is_positive(&self) -> (r: bool)
        ensures
            r == self.spec_is_positive(),
    {
        0 < self.bits && self.bits <= POSITIVE_INFINITY_BITS
    }
}

/// A point of the drawing surface.
#[derive(Clone, Copy, Debug, PartialEq, Eq, Structural)]
pub struct Point {
    pub x: F64Bits,
    pub y: F64Bits,
}

} // verus!
