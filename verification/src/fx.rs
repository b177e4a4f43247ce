//! Saturating 16.16 fixed-point arithmetic for the animation engine. Values
//! are carried as their raw `i32` bit patterns; the arithmetic itself is done
//! by the `fixed` crate behind exactly specified wrappers.
use vstd::prelude::*;

verus! {

/// Scale of the 16.16 format: 1.0 is represented by this many bits.
pub const FX_ONE: i32 = 65536;

/// An integer clamped into the `i32` range.
pub open spec fn sat32(v: int) -> int {
    if v > i32::MAX as int {
        i32::MAX as int
    } else if v < i32::MIN as int {
        i32::MIN as int
    } else {
        v
    }
}

/// Division truncating toward zero, as the machine division does.
pub open spec fn tdiv(a: int, b: int) -> int {
    if (a >= 0) == (b >= 0) {
        (vstd::math::abs(a) as int) / (vstd::math::abs(b) as int)
    } else {
        -((vstd::math::abs(a) as int) / (vstd::math::abs(b) as int))
    }
}

/// Bits of the saturating 16.16 product: the wide product scaled down by one
/// unit (rounding toward minus infinity), clamped into the representable
/// range.
pub open spec fn fx_mul(a: int, b: int) -> int {
    sat32((a * b) / (FX_ONE as int))
}

/// Bits of the saturating 16.16 quotient: the scaled-up dividend divided with
/// truncation, clamped into the representable range.
pub open spec fn fx_div(a: int, b: int) -> int {
    sat32(tdiv(a * (FX_ONE as int), b))
}

/// `r` is the integer square root of `v`: the greatest integer whose square
/// does not exceed `v`.
pub open spec fn is_isqrt(v: int, r: int) -> bool {
    &&& r >= 0
    &&& r * r <= v
    &&& (r + 1) * (r + 1) > v
}

/// Relies on fixed::FixedI32::<U16>::saturating_add: the sum of the bit
/// patterns as plain integers, saturating at the i32 bounds.
#[verifier::external_body]
pub(crate) fn fx_saturating_add(a: i32, b: i32) -> (r: i32)
    ensures
        r as int == sat32(a + b),
{
    fixed::FixedI32::<fixed::types::extra::U16>::from_bits(a)
        .saturating_add(fixed::FixedI32::<fixed::types::extra::U16>::from_bits(b))
        .to_bits()
}

/// Relies on fixed::FixedI32::<U16>::saturating_sub: the difference of the
/// bit patterns as plain integers, saturating at the i32 bounds.
#[verifier::external_body]
pub(crate) fn fx_saturating_sub(a: i32, b: i32) -> (r: i32)
    ensures
        r as int == sat32(a - b),
{
    fixed::FixedI32::<fixed::types::extra::U16>::from_bits(a)
        .saturating_sub(fixed::FixedI32::<fixed::types::extra::U16>::from_bits(b))
        .to_bits()
}

/// Relies on fixed::FixedI32::<U16>::saturating_mul: the wide product of the
/// bit patterns shifted down 16 bits (toward minus infinity), saturating when
/// the true product leaves the representable range. A square is never
/// negative.
#[verifier::external_body]
pub(crate) fn fx_saturating_mul(a: i32, b: i32) -> (r: i32)
    ensures
        r as int == fx_mul(a as int, b as int),
{
    fixed::FixedI32::<fixed::types::extra::U16>::from_bits(a)
        .saturating_mul(fixed::FixedI32::<fixed::types::extra::U16>::from_bits(b))
        .to_bits()
}

/// Relies on fixed::FixedI32::<U16>::saturating_div: the dividend's bits
/// shifted up 16 bits and divided with truncation, saturating when the true
/// quotient leaves the representable range. Division by zero panics, so zero
/// divisors are excluded.
#[verifier::external_body]
pub(crate) fn fx_saturating_div(a: i32, b: i32) -> (r: i32)
    requires
        b != 0,
    ensures
        r as int == fx_div(a as int, b as int),
{
    fixed::FixedI32::<fixed::types::extra::U16>::from_bits(a)
        .saturating_div(fixed::FixedI32::<fixed::types::extra::U16>::from_bits(b))
        .to_bits()
}

/// Relies on fixed::FixedI32::<U16>::saturating_abs: the magnitude of the bit
/// pattern, with the minimum saturating to the maximum.
#[verifier::external_body]
pub(crate) fn fx_saturating_abs(a: i32) -> (r: i32)
    ensures
        r as int == sat32(vstd::math::abs(a as int) as int),
{
    fixed::FixedI32::<fixed::types::extra::U16>::from_bits(a).saturating_abs().to_bits()
}

/// Relies on fixed::FixedI32::<U16>::wrapping_sqrt: for a non-negative value
/// the result is the square root rounded down to the resolution of the
/// format, that is the integer square root of the bits scaled up 16 bits.
/// (With 16 integer bits the root never overflows.) A negative input panics,
/// so it is excluded.
#[verifier::external_body]
pub(crate) fn fx_sqrt(a: i32) -> (r: i32)
    requires
        a >= 0,
    ensures
        is_isqrt(a * (FX_ONE as int), r as int),
{
    fixed::FixedI32::<fixed::types::extra::U16>::from_bits(a).wrapping_sqrt().to_bits()
}

/// The bits representing a small integer value exactly.
pub(crate) fn fx_from_int(n: i32) -> (r: i32)
    requires
        -0x8000 <= n < 0x8000,
    ensures
        r as int == n * (FX_ONE as int),
{
    n * FX_ONE
}

/// The integer part of a value, rounding toward minus infinity.
pub(crate) fn fx_to_int(a: i32) -> (r: i32)
    ensures
        (FX_ONE as int) * r <= a < (FX_ONE as int) * (r + 1),
{
    if a >= 0 {
        a / FX_ONE
    } else {
        let neg = ((-(a as i64)) + 65535) / 65536;
        proof {
            let m = -(a as int);
            assert(65536 * ((m + 65535) / 65536) >= m);
            assert(65536 * ((m + 65535) / 65536) < m + 65536);
        }
        (-neg) as i32
    }
}

} // verus!
