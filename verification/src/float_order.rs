//! Comparison of IEEE-754 binary32 values held as their bit patterns.
//!
//! Times and speeds travel through this library as the raw bits of an `f32`
//! (what `f32::to_bits` returns). For values that are not NaN, binary32 orders
//! exactly like sign-magnitude integers: the magnitude bits grow with the
//! magnitude, and the sign bit flips the direction. `+0.0` and `-0.0` compare
//! equal, and a NaN is neither less than, greater than nor equal to anything.
//! The functions here decide `<` and `==` on bit patterns exactly as the
//! hardware does on the floats.
use vstd::prelude::*;

verus! {

/// Bit pattern of `0.0`.
pub const ZERO: u32 = 0x0000_0000;

/// Bit pattern of `1.0`.
pub const ONE: u32 = 0x3f80_0000;

/// Bit pattern of `5.0`.
pub const FIVE: u32 = 0x40a0_0000;

/// Bit pattern of `-1.0`.
pub const MINUS_ONE: u32 = 0xbf80_0000;

/// Bit pattern of `f32::MAX`, the largest finite value.
pub const MAX: u32 = 0x7f7f_ffff;

/// The sign bit is set.
pub open spec fn is_negative(bits: u32) -> bool {
    bits >= 0x8000_0000
}

/// The exponent and mantissa bits, read as one unsigned number.
pub open spec fn magnitude(bits: u32) -> int {
    if is_negative(bits) {
        bits - 0x8000_0000
    } else {
        bits as int
    }
}

/// A NaN: all exponent bits set and a non-zero mantissa.
pub open spec fn is_nan(bits: u32) -> bool {
    magnitude(bits) > 0x7f80_0000
}

/// An integer that orders the non-NaN values as the reals they denote.
pub open spec fn order_key(bits: u32) -> int {
    if is_negative(bits) {
        -magnitude(bits)
    } else {
        magnitude(bits)
    }
}

/// `a < b` on the floats whose bits are `a` and `b`.
pub open spec fn f32_lt(a: u32, b: u32) -> bool {
    !is_nan(a) && !is_nan(b) && order_key(a) < order_key(b)
}

/// `a == b` on the floats whose bits are `a` and `b`.
pub open spec fn f32_eq(a: u32, b: u32) -> bool {
    !is_nan(a) && !is_nan(b) && order_key(a) == order_key(b)
}

/// The order on bit patterns, told without the key: NaNs compare with
/// nothing; among non-negative numbers a larger pattern is a larger number;
/// among negative numbers a larger pattern is a smaller number; a negative
/// number is below a non-negative one unless both are zeros; and `+0.0`
/// equals `-0.0`. Equality is equality of the patterns otherwise.
pub proof fn lemma_order_on_bits(a: u32, b: u32)
    ensures
        is_nan(a) || is_nan(b) ==> !f32_lt(a, b) && !f32_eq(a, b),
        !is_nan(a) && !is_nan(b) && !is_negative(a) && !is_negative(b) ==> (f32_lt(a, b) <==> a < b),
        !is_nan(a) && !is_nan(b) && is_negative(a) && is_negative(b) ==> (f32_lt(a, b) <==> a > b),
        !is_nan(a) && !is_nan(b) && is_negative(a) && !is_negative(b) ==> (f32_lt(a, b) <==> !(
        a == 0x8000_0000 && b == 0)),
        !is_nan(a) && !is_nan(b) && a == b ==> f32_eq(a, b) && !f32_lt(a, b),
        f32_eq(a, b) ==> a == b || (magnitude(a) == 0 && magnitude(b) == 0),
        f32_eq(0x8000_0000, 0),
        is_nan(a) <==> magnitude(a) / 0x80_0000 == 0xff && magnitude(a) % 0x80_0000 != 0,
        f32_lt(a, b) ==> !f32_lt(b, a) && !f32_eq(a, b),
        !is_nan(a) && !is_nan(b) ==> f32_lt(a, b) || f32_lt(b, a) || f32_eq(a, b),
{
}

/// The named constants are ordered as their values: `-1.0 < 0.0 < 1.0 < 5.0 <
/// f32::MAX`, none of them a NaN.
pub proof fn lemma_constants_ordered()
    ensures
        f32_lt(MINUS_ONE, ZERO),
        f32_lt(ZERO, ONE),
        f32_lt(ONE, FIVE),
        f32_lt(FIVE, MAX),
        !is_nan(MAX) && !is_nan(MINUS_ONE),
{
}

fn key_of(bits: u32) -> (r: (bool, u32))
    ensures
        r.0 == is_nan(bits),
        !r.0 ==> r.1 as int == order_key(bits) + 0x8000_0000,
{
    let mag: u32 = if bits >= 0x8000_0000 { bits - 0x8000_0000 } else { bits };
    if mag > 0x7f80_0000 {
        (true, 0)
    } else if bits >= 0x8000_0000 {
        (false, 0x8000_0000 - mag)
    } else {
        (false, 0x8000_0000 + mag)
    }
}

/// Whether the float with bits `a` is less than the one with bits `b`.
pub fn less_than(a: u32, b: u32) -> (r: bool)
    ensures
        r == f32_lt(a, b),
{
    let (a_nan, ka) = key_of(a);
    let (b_nan, kb) = key_of(b);
    !a_nan && !b_nan && ka < kb
}

/// Whether the float with bits `a` equals the one with bits `b`.
pub fn equals(a: u32, b: u32) -> (r: bool)
    ensures
        r == f32_eq(a, b),
{
    let (a_nan, ka) = key_of(a);
    let (b_nan, kb) = key_of(b);
    !a_nan && !b_nan && ka == kb
}

} // verus!
