//! Fixed-point scalars.
//!
//! Every quantity of the animation engine (times, openness values, colour
//! channels, matrix entries) is a signed count of millionths held in an `i64`.
//! Results that leave the range of `i64` are pinned to its nearest end.

use vstd::prelude::*;

verus! {

/// The raw count that stands for the whole number one.
pub const UNIT: i64 = 1_000_000;

/// The nearest raw value to `x` that an `i64` can hold.
pub open spec fn saturate(x: int) -> int {
    if x < i64::MIN {
        i64::MIN as int
    } else if x > i64::MAX {
        i64::MAX as int
    } else {
        x
    }
}

/// The point reached when moving from `from` towards `to` by the fraction
/// `weight / UNIT` of the way, rounded down to a whole raw count.
pub open spec fn blend(from: int, to: int, weight: int) -> int {
    from + (to - from) * weight / (UNIT as int)
}

/// The blend of two raw values, pinned to the range of `i64`.
pub open spec fn lerp_spec(from: i64, to: i64, weight: int) -> i64 {
    saturate(blend(from as int, to as int, weight)) as i64
}

/// A blend with weight zero is its starting point, and a blend with weight
/// `UNIT` is its end point, exactly.
pub proof fn lemma_blend_endpoints(from: int, to: int)
    ensures
        blend(from, to, 0) == from,
        blend(from, to, UNIT as int) == to,
{
}

/// A blend whose weight lies between zero and `UNIT` lies between its two
/// end points.
pub proof fn lemma_blend_between(from: int, to: int, weight: int)
    requires
        0 <= weight <= UNIT,
    ensures
        from <= to ==> from <= blend(from, to, weight) <= to,
        to <= from ==> to <= blend(from, to, weight) <= from,
{
    let span = to - from;
    assert(span >= 0 ==> 0 <= span * weight / (UNIT as int) <= span) by (nonlinear_arith)
        requires
            0 <= weight <= UNIT,
            UNIT == 1_000_000,
    ;
    assert(span <= 0 ==> span <= span * weight / (UNIT as int) <= 0) by (nonlinear_arith)
        requires
            0 <= weight <= UNIT,
            UNIT == 1_000_000,
    ;
}

/// A larger weight moves a blend further from its starting point, never back
/// towards it.
pub proof fn lemma_blend_monotonic(from: int, to: int, lower: int, upper: int)
    requires
        lower <= upper,
    ensures
        from <= to ==> blend(from, to, lower) <= blend(from, to, upper),
        to <= from ==> blend(from, to, lower) >= blend(from, to, upper),
{
    let span = to - from;
    assert(span >= 0 ==> span * lower / (UNIT as int) <= span * upper / (UNIT as int))
        by (nonlinear_arith)
        requires
            lower <= upper,
            UNIT == 1_000_000,
    ;
    assert(span <= 0 ==> span * lower / (UNIT as int) >= span * upper / (UNIT as int))
        by (nonlinear_arith)
        requires
            lower <= upper,
            UNIT == 1_000_000,
    ;
}

/// A weight beyond `UNIT` carries a blend to its end point or past it, and a
/// weight below zero carries it back to its starting point or behind it.
pub proof fn lemma_blend_extrapolates(from: int, to: int, weight: int)
    ensures
        weight >= UNIT && from <= to ==> blend(from, to, weight) >= to,
        weight >= UNIT && to <= from ==> blend(from, to, weight) <= to,
        weight <= 0 && from <= to ==> blend(from, to, weight) <= from,
        weight <= 0 && to <= from ==> blend(from, to, weight) >= from,
{
    lemma_blend_endpoints(from, to);
    if weight >= UNIT {
        lemma_blend_monotonic(from, to, UNIT as int, weight);
    }
    if weight <= 0 {
        lemma_blend_monotonic(from, to, weight, 0);
    }
}

/// Largest whole number `q` with `q * UNIT <= x`.
fn floor_units(x: i128) -> (q: i128)
    requires
        x > i128::MIN + UNIT,
    ensures
        q == (x as int) / (UNIT as int),
{
    let unit: i128 = 1_000_000;
    if x >= 0 {
        x / unit
    } else {
        let up: i128 = (unit - 1) - x;
        let q: i128 = up / unit;
        -q
    }
}

/// Pins a wide intermediate result to the range of `i64`.
fn clamp_to_i64(x: i128) -> (r: i64)
    ensures
        r == saturate(x as int),
{
    if x < -9_223_372_036_854_775_808i128 {
        i64::MIN
    } else if x > 9_223_372_036_854_775_807i128 {
        i64::MAX
    } else {
        x as i64
    }
}

/// Linear interpolation between two raw values with a raw weight.
///
/// A weight of zero gives `from`, a weight of `UNIT` gives `to`; weights
/// outside that span extrapolate along the same line.
pub fn lerp(from: i64, to: i64, weight: i64) -> (r: i64)
    ensures
        r == lerp_spec(from, to, weight as int),
{
    let span: i128 = to as i128 - from as i128;
    assert(-0x7fff_ffff_ffff_ffff_8000_0000_0000_0000 <= span * (weight as i128)
        <= 0x7fff_ffff_ffff_ffff_8000_0000_0000_0000) by (nonlinear_arith)
        requires
            -0xffff_ffff_ffff_ffff <= span <= 0xffff_ffff_ffff_ffff,
            -0x8000_0000_0000_0000 <= weight <= 0x7fff_ffff_ffff_ffff,
    ;
    let scaled: i128 = span * (weight as i128);
    let step: i128 = floor_units(scaled);
    clamp_to_i64(from as i128 + step)
}

/// The sum of three products of raw values, brought back to the raw scale
/// and rounded down.
pub open spec fn dot(a0: int, b0: int, a1: int, b1: int, a2: int, b2: int) -> int {
    (a0 * b0 + a1 * b1 + a2 * b2) / (UNIT as int)
}

/// The sum of three products of raw values on the raw scale, pinned to the
/// range of `i64`.
pub open spec fn dot_spec(a0: i64, b0: i64, a1: i64, b1: i64, a2: i64, b2: i64) -> i64 {
    saturate(dot(a0 as int, b0 as int, a1 as int, b1 as int, a2 as int, b2 as int)) as i64
}

/// Quotient and remainder of the product of two raw values by `UNIT`.
fn scaled_product(a: i64, b: i64) -> (parts: (i128, i128))
    ensures
        parts.0 * UNIT + parts.1 == a * b,
        0 <= parts.1 < UNIT,
        -0x0100_0000_0000_0000_0000_0000_0000_0000 <= parts.0
            <= 0x0100_0000_0000_0000_0000_0000_0000_0000,
{
    assert(-0x4000_0000_0000_0000_0000_0000_0000_0000 <= (a as int) * (b as int)
        <= 0x4000_0000_0000_0000_0000_0000_0000_0000) by (nonlinear_arith)
        requires
            -0x8000_0000_0000_0000 <= a <= 0x7fff_ffff_ffff_ffff,
            -0x8000_0000_0000_0000 <= b <= 0x7fff_ffff_ffff_ffff,
    ;
    let product: i128 = (a as i128) * (b as i128);
    let quotient: i128 = floor_units(product);
    let remainder: i128 = product - quotient * 1_000_000;
    (quotient, remainder)
}

/// Computes the sum of three products of raw values on the raw scale.
pub fn dot_product(a0: i64, b0: i64, a1: i64, b1: i64, a2: i64, b2: i64) -> (r: i64)
    ensures
        r == dot_spec(a0, b0, a1, b1, a2, b2),
{
    let (q0, r0) = scaled_product(a0, b0);
    let (q1, r1) = scaled_product(a1, b1);
    let (q2, r2) = scaled_product(a2, b2);
    let whole: i128 = q0 + q1 + q2;
    let rest: i128 = r0 + r1 + r2;
    let carry: i128 = rest / 1_000_000;
    clamp_to_i64(whole + carry)
}

} // verus!
