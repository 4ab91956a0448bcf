use vstd::prelude::*;

verus! {

/// Mask of the exponent field of an IEEE-754 binary64 value.
pub const EXPONENT_MASK: u64 = 0x7ff0_0000_0000_0000;

/// Mask of the fraction field of an IEEE-754 binary64 value.
pub const FRACTION_MASK: u64 = 0x000f_ffff_ffff_ffff;

/// Mask of every bit but the sign of an IEEE-754 binary64 value.
pub const MAGNITUDE_MASK: u64 = 0x7fff_ffff_ffff_ffff;

/// The binary64 value with bit pattern `b` is a NaN.
pub open spec fn is_nan_bits(b: u64) -> bool {
    (b & EXPONENT_MASK) == EXPONENT_MASK && (b & FRACTION_MASK) != 0
}

/// The binary64 value with bit pattern `b` is positive or negative zero.
pub open spec fn is_zero_bits(b: u64) -> bool {
    (b & MAGNITUDE_MASK) == 0
}

/// IEEE-754 equality of two binary64 values given by their bit patterns:
/// NaN equals nothing, the two zeros are equal, anything else is equal
/// exactly when the patterns are.
pub open spec fn coord_eq(a: u64, b: u64) -> bool {
    (a == b && !is_nan_bits(a)) || (is_zero_bits(a) && is_zero_bits(b))
}

/// Computes `coord_eq` on two bit patterns.
pub fn coord_equal(a: u64, b: u64) -> (r: bool)
    ensures
        r == coord_eq(a, b),
{
    let a_nan = (a & EXPONENT_MASK) == EXPONENT_MASK && (a & FRACTION_MASK) != 0;
    let both_zero = (a & MAGNITUDE_MASK) == 0 && (b & MAGNITUDE_MASK) == 0;
    (a == b && !a_nan) || both_zero
}

/// A point of the plane, each coordinate held as the bit pattern of an
/// IEEE-754 binary64 number. Equality follows floating-point equality of
/// the coordinates, exactly and without tolerance.
#[derive(Clone, Copy, Debug)]
pub struct Point {
    pub x_bits: u64,
    pub y_bits: u64,
}

impl Point {
    /// The point with the given coordinate bit patterns.
    pub fn from_bits(x_bits: u64, y_bits: u64) -> (r: Point)
        ensures
            r.x_bits == x_bits,
            r.y_bits == y_bits,
    {
        Point { x_bits, y_bits }
    }

    /// The point at (0, 0).
    pub fn origin() -> (r: Point)
        ensures
            r.x_bits == 0,
            r.y_bits == 0,
    {
        Point { x_bits: 0, y_bits: 0 }
    }

    /// Both coordinates are equal as floating-point numbers.
    pub open spec fn same_place(&self, other: &Point) -> bool {
        coord_eq(self.x_bits, other.x_bits) && coord_eq(self.y_bits, other.y_bits)
    }
}

impl PartialEq for Point {
    fn eq(&self, other: &Point) -> (r: bool) {
        coord_equal(self.x_bits, other.x_bits) && coord_equal(self.y_bits, other.y_bits)
    }
}

impl vstd::std_specs::cmp::PartialEqSpecImpl for Point {
    open spec fn obeys_eq_spec() -> bool {
        true
    }

    open spec fn eq_spec(&self, other: &Point) -> bool {
        self.same_place(other)
    }
}

} // verus!
