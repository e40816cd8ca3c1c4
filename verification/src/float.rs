//! IEEE-754 binary32 lanes, held as their bit patterns.
//!
//! Bit 31 is the sign, bits 23..31 the biased exponent and bits 0..23 the fraction.
//! Ordered comparisons follow IEEE-754: a NaN compares false with everything, and the
//! two zeroes compare equal.  For values that are not NaN the order of the reals is the
//! order of the signed magnitude of the bit patterns, which is what `order_key` gives.
use vstd::prelude::*;

verus! {

/// The smallest bit pattern with the sign bit set.
pub const SIGN_BIT: u32 = 0x8000_0000u32;

/// The bit pattern of positive infinity.
pub const INFINITY_BITS: u32 = 0x7f80_0000u32;

/// The bits of a lane without its sign bit.
pub open spec fn magnitude(b: u32) -> u32 {
    if b >= SIGN_BIT {
        (b - SIGN_BIT) as u32
    } else {
        b
    }
}

/// A lane is NaN when its exponent is all ones and its fraction is not zero, that is when
/// its magnitude lies above that of infinity.
pub open spec fn is_nan(b: u32) -> bool {
    magnitude(b) > INFINITY_BITS
}

/// The position of a lane that is not NaN on the number line: the magnitude, negated when
/// the sign bit is set.  Both zeroes get 0.
pub open spec fn order_key(b: u32) -> int {
    if b >= SIGN_BIT {
        -(magnitude(b) as int)
    } else {
        b as int
    }
}

/// Ordered equality of two lanes.
pub open spec fn float_eq(a: u32, b: u32) -> bool {
    !is_nan(a) && !is_nan(b) && order_key(a) == order_key(b)
}

/// Ordered greater-than of two lanes.
pub open spec fn float_gt(a: u32, b: u32) -> bool {
    !is_nan(a) && !is_nan(b) && order_key(a) > order_key(b)
}

/// Ordered less-than of two lanes.
pub open spec fn float_lt(a: u32, b: u32) -> bool {
    float_gt(b, a)
}

/// The lane-wise minimum of SSE: the first lane when it is less than the second, the
/// second otherwise (also when either is NaN, or both are zeroes).
pub open spec fn float_min(a: u32, b: u32) -> u32 {
    if float_lt(a, b) {
        a
    } else {
        b
    }
}

/// The lane-wise maximum of SSE: the first lane when it is greater than the second, the
/// second otherwise (also when either is NaN, or both are zeroes).
pub open spec fn float_max(a: u32, b: u32) -> u32 {
    if float_gt(a, b) {
        a
    } else {
        b
    }
}

/// Clearing the sign bit with a mask leaves the magnitude.
pub proof fn lemma_clear_sign(b: u32)
    ensures
        b & 0x7fff_ffffu32 == magnitude(b),
{
    assert(b & 0x7fff_ffffu32 == (if b >= 0x8000_0000u32 {
        (b - 0x8000_0000u32) as u32
    } else {
        b
    })) by (bit_vector);
}

/// The position of a lane on the number line, as computed in `order_key`.
fn key_of(b: u32) -> (r: i64)
    ensures
        r as int == order_key(b),
{
    if b >= SIGN_BIT {
        -((b - SIGN_BIT) as i64)
    } else {
        b as i64
    }
}

/// True when a lane is NaN.
pub fn lane_is_nan(b: u32) -> (r: bool)
    ensures
        r == is_nan(b),
{
    lane_abs(b) > INFINITY_BITS
}

/// Ordered equality of two lanes.
pub fn lane_eq(a: u32, b: u32) -> (r: bool)
    ensures
        r == float_eq(a, b),
{
    !lane_is_nan(a) && !lane_is_nan(b) && key_of(a) == key_of(b)
}

/// Ordered greater-than of two lanes.
pub fn lane_gt(a: u32, b: u32) -> (r: bool)
    ensures
        r == float_gt(a, b),
{
    !lane_is_nan(a) && !lane_is_nan(b) && key_of(a) > key_of(b)
}

/// The SSE minimum of two lanes.
pub fn lane_min(a: u32, b: u32) -> (r: u32)
    ensures
        r == float_min(a, b),
{
    if lane_gt(b, a) {
        a
    } else {
        b
    }
}

/// The SSE maximum of two lanes.
pub fn lane_max(a: u32, b: u32) -> (r: u32)
    ensures
        r == float_max(a, b),
{
    if lane_gt(a, b) {
        a
    } else {
        b
    }
}

/// A lane with its sign bit cleared.
pub fn lane_abs(b: u32) -> (r: u32)
    ensures
        r == magnitude(b),
{
    proof {
        lemma_clear_sign(b);
    }
    b & 0x7fff_ffffu32
}

} // verus!
