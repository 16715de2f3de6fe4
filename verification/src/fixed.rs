//! Saturating fixed-point arithmetic on `i64`, three decimal places.

use vstd::prelude::*;

verus! {

/// The raw value that stands for one unit.
pub const SCALE: i64 = 1000;

/// The number of time steps in a second: time is counted in nanoseconds.
pub const STEPS_PER_SECOND: i64 = 1_000_000_000;

/// The nearest `i64` to a mathematical integer.
pub open spec fn saturate(x: int) -> i64 {
    if x < i64::MIN {
        i64::MIN
    } else if x > i64::MAX {
        i64::MAX
    } else {
        x as i64
    }
}

/// The absolute value of a mathematical integer.
pub open spec fn abs_int(x: int) -> int {
    if x < 0 {
        -x
    } else {
        x
    }
}

/// The smaller of two mathematical integers.
pub open spec fn min_int(x: int, y: int) -> int {
    if x <= y {
        x
    } else {
        y
    }
}

/// Division that rounds toward zero, for a positive divisor.
pub open spec fn trunc_div(p: int, d: int) -> int
    recommends
        d > 0,
{
    if p >= 0 {
        p / d
    } else {
        -((-p) / d)
    }
}

/// The saturating sum of two raw values.
pub open spec fn sat_add(a: i64, b: i64) -> i64 {
    saturate(a + b)
}

/// The saturating difference of two raw values.
pub open spec fn sat_sub(a: i64, b: i64) -> i64 {
    saturate(a - b)
}

/// The saturating negation of a raw value.
pub open spec fn sat_neg(a: i64) -> i64 {
    saturate(-a)
}

/// The saturating absolute value of a raw value.
pub open spec fn sat_abs(a: i64) -> i64 {
    saturate(abs_int(a as int))
}

/// The fixed-point product: the exact product of the raw values, divided by
/// `SCALE` with rounding toward zero, then saturated.
pub open spec fn sat_mul(a: i64, b: i64) -> i64 {
    saturate(trunc_div(a * b, SCALE as int))
}

/// The change that a rate per second makes over `dt` nanoseconds: the
/// exact product, divided by `STEPS_PER_SECOND` with rounding toward zero,
/// then saturated.
pub open spec fn sat_over(rate: i64, dt: i64) -> i64 {
    saturate(trunc_div(rate * dt, STEPS_PER_SECOND as int))
}

/// The raw value of a whole number of units.
pub open spec fn units(n: i32) -> i64 {
    (n * SCALE) as i64
}

/// Converts a whole number of units to its raw value.
pub fn from_units(n: i32) -> (r: i64)
    ensures
        r == units(n),
        r == n * 1000,
{
    (n as i64) * SCALE
}

/// Brings a wide intermediate result back into the `i64` range.
pub fn narrow(x: i128) -> (r: i64)
    ensures
        r == saturate(x as int),
{
    if x < i64::MIN as i128 {
        i64::MIN
    } else if x > i64::MAX as i128 {
        i64::MAX
    } else {
        x as i64
    }
}

/// Adds two raw values, saturating at the ends of the range.
pub fn plus(a: i64, b: i64) -> (r: i64)
    ensures
        r == sat_add(a, b),
{
    narrow(a as i128 + b as i128)
}

/// Subtracts `b` from `a`, saturating at the ends of the range.
pub fn minus(a: i64, b: i64) -> (r: i64)
    ensures
        r == sat_sub(a, b),
{
    narrow(a as i128 - b as i128)
}

/// Negates a raw value; the most negative value becomes the most positive.
pub fn negate(a: i64) -> (r: i64)
    ensures
        r == sat_neg(a),
{
    narrow(-(a as i128))
}

/// The absolute value of a raw value, saturating for the most negative one.
pub fn magnitude(a: i64) -> (r: i64)
    ensures
        r == sat_abs(a),
        r >= 0,
{
    if a < 0 {
        negate(a)
    } else {
        a
    }
}

/// The exact absolute value of a raw value, in a type that holds it.
pub fn unsigned_magnitude(a: i64) -> (r: u64)
    ensures
        r == abs_int(a as int),
{
    if a < 0 {
        (-(a as i128)) as u64
    } else {
        a as u64
    }
}

/// A product of two `i64` values has magnitude at most `2^126`.
pub proof fn lemma_product_bound(a: i64, b: i64)
    ensures
        -0x4000_0000_0000_0000_0000_0000_0000_0000 <= a * b
            <= 0x4000_0000_0000_0000_0000_0000_0000_0000,
{
    assert(-0x4000_0000_0000_0000_0000_0000_0000_0000 <= a * b
        <= 0x4000_0000_0000_0000_0000_0000_0000_0000) by (nonlinear_arith)
        requires
            -0x8000_0000_0000_0000 <= a <= 0x8000_0000_0000_0000,
            -0x8000_0000_0000_0000 <= b <= 0x8000_0000_0000_0000,
    ;
}

/// The exact product of two raw values, divided by `divisor` with rounding
/// toward zero, then saturated.
fn product_over(a: i64, b: i64, divisor: u128) -> (r: i64)
    requires
        divisor > 0,
    ensures
        r == saturate(trunc_div(a * b, divisor as int)),
{
    proof {
        lemma_product_bound(a, b);
    }
    let p: i128 = (a as i128) * (b as i128);
    if p >= 0 {
        let q: u128 = (p as u128) / divisor;
        narrow(q as i128)
    } else {
        let q: u128 = ((-p) as u128) / divisor;
        narrow(-(q as i128))
    }
}

/// Multiplies two fixed-point values: the exact product of the raw values is
/// divided by `SCALE`, rounded toward zero, and saturated.
pub fn times(a: i64, b: i64) -> (r: i64)
    ensures
        r == sat_mul(a, b),
{
    product_over(a, b, 1000)
}

/// The change that a rate per second makes over `dt` nanoseconds, rounded
/// toward zero and saturated.
pub fn over(rate: i64, dt: i64) -> (r: i64)
    ensures
        r == sat_over(rate, dt),
{
    product_over(rate, dt, 1_000_000_000)
}

} // verus!
