//! Two-dimensional fixed-point vectors.

use vstd::prelude::*;
use crate::fixed::{abs_int, sat_add, sat_mul, sat_neg, sat_over, sat_sub};
use crate::fixed::{minus, negate, over, plus, times, unsigned_magnitude};

verus! {

/// A vector of two fixed-point components.
#[derive(Clone, Copy, Debug, PartialEq, Eq, Structural)]
pub struct Vec2 {
    pub x: i64,
    pub y: i64,
}

impl Vec2 {
    /// The vector with both components zero.
    pub open spec fn spec_zero() -> Vec2 {
        Vec2 { x: 0, y: 0 }
    }

    /// The exact squared length, in squared raw units.
    pub open spec fn spec_length_squared(self) -> int {
        self.x * self.x + self.y * self.y
    }

    /// The component-wise saturating sum.
    pub open spec fn spec_plus(self, other: Vec2) -> Vec2 {
        Vec2 { x: sat_add(self.x, other.x), y: sat_add(self.y, other.y) }
    }

    /// The component-wise saturating difference.
    pub open spec fn spec_minus(self, other: Vec2) -> Vec2 {
        Vec2 { x: sat_sub(self.x, other.x), y: sat_sub(self.y, other.y) }
    }

    /// The component-wise saturating negation.
    pub open spec fn spec_negated(self) -> Vec2 {
        Vec2 { x: sat_neg(self.x), y: sat_neg(self.y) }
    }

    /// Both components multiplied by the fixed-point factor `k`.
    pub open spec fn spec_scaled(self, k: i64) -> Vec2 {
        Vec2 { x: sat_mul(self.x, k), y: sat_mul(self.y, k) }
    }

    /// The change that this rate per second makes over `dt` nanoseconds.
    pub open spec fn spec_over(self, dt: i64) -> Vec2 {
        Vec2 { x: sat_over(self.x, dt), y: sat_over(self.y, dt) }
    }

    /// The exact squared distance between two points, in squared raw units.
    pub open spec fn spec_distance_squared(self, other: Vec2) -> int {
        (self.x - other.x) * (self.x - other.x) + (self.y - other.y) * (self.y - other.y)
    }

    /// Whether the distance between two points is below `range`.
    pub open spec fn spec_within(self, other: Vec2, range: i64) -> bool {
        range > 0 && self.spec_distance_squared(other) < range * range
    }

    /// The vector with the given components.
    pub fn new(x: i64, y: i64) -> (r: Vec2)
        ensures
            r == (Vec2 { x, y }),
    {
        Vec2 { x, y }
    }

    /// The vector whose components both equal `value`.
    pub fn splat(value: i64) -> (r: Vec2)
        ensures
            r == (Vec2 { x: value, y: value }),
    {
        Vec2 { x: value, y: value }
    }

    /// The vector with both components zero.
    pub fn zero() -> (r: Vec2)
        ensures
            r == Vec2::spec_zero(),
    {
        Vec2 { x: 0, y: 0 }
    }

    /// Adds two vectors component by component, saturating.
    pub fn plus(self, other: Vec2) -> (r: Vec2)
        ensures
            r == self.spec_plus(other),
    {
        Vec2 { x: plus(self.x, other.x), y: plus(self.y, other.y) }
    }

    /// Subtracts `other` component by component, saturating.
    pub fn minus(self, other: Vec2) -> (r: Vec2)
        ensures
            r == self.spec_minus(other),
    {
        Vec2 { x: minus(self.x, other.x), y: minus(self.y, other.y) }
    }

    /// Negates both components, saturating.
    pub fn negated(self) -> (r: Vec2)
        ensures
            r == self.spec_negated(),
    {
        Vec2 { x: negate(self.x), y: negate(self.y) }
    }

    /// Multiplies both components by the fixed-point factor `k`.
    pub fn scaled(self, k: i64) -> (r: Vec2)
        ensures
            r == self.spec_scaled(k),
    {
        Vec2 { x: times(self.x, k), y: times(self.y, k) }
    }

    /// The change that this rate per second makes over `dt` nanoseconds.
    pub fn over(self, dt: i64) -> (r: Vec2)
        ensures
            r == self.spec_over(dt),
    {
        Vec2 { x: over(self.x, dt), y: over(self.y, dt) }
    }

    /// The exact squared length; it always fits in a `u128`.
    pub fn length_squared(self) -> (r: u128)
        ensures
            r == self.spec_length_squared(),
    {
        let a: u128 = unsigned_magnitude(self.x) as u128;
        let b: u128 = unsigned_magnitude(self.y) as u128;
        proof {
            lemma_square_bound(a as int);
            lemma_square_bound(b as int);
            lemma_square_of_abs(self.x as int);
            lemma_square_of_abs(self.y as int);
        }
        a * a + b * b
    }

    /// Whether `other` lies closer to `self` than `range`. The comparison is
    /// exact for every pair of points.
    pub fn within(self, other: Vec2, range: i64) -> (r: bool)
        ensures
            r == self.spec_within(other, range),
    {
        if range <= 0 {
            return false;
        }
        let limit: u128 = range as u128;
        let dx: i128 = self.x as i128 - other.x as i128;
        let dy: i128 = self.y as i128 - other.y as i128;
        let ax: u128 = if dx < 0 { (-dx) as u128 } else { dx as u128 };
        let ay: u128 = if dy < 0 { (-dy) as u128 } else { dy as u128 };
        proof {
            lemma_square_of_abs(dx as int);
            lemma_square_of_abs(dy as int);
            lemma_square_monotonic(limit as int, ax as int);
            lemma_square_monotonic(limit as int, ay as int);
            lemma_square_nonnegative(ax as int);
            lemma_square_nonnegative(ay as int);
        }
        if ax >= limit || ay >= limit {
            return false;
        }
        proof {
            lemma_square_bound(ax as int);
            lemma_square_bound(ay as int);
            lemma_square_bound(limit as int);
        }
        ax * ax + ay * ay < limit * limit
    }
}

/// A square is never negative.
pub proof fn lemma_square_nonnegative(a: int)
    ensures
        a * a >= 0,
{
    assert(a * a >= 0) by (nonlinear_arith);
}

/// The square of a magnitude of at most `2^63` is at most `2^126`.
pub proof fn lemma_square_bound(a: int)
    requires
        0 <= a <= 0x8000_0000_0000_0000,
    ensures
        0 <= a * a <= 0x4000_0000_0000_0000_0000_0000_0000_0000,
{
    assert(0 <= a * a <= 0x4000_0000_0000_0000_0000_0000_0000_0000) by (nonlinear_arith)
        requires
            0 <= a <= 0x8000_0000_0000_0000,
    ;
}

/// A number and its absolute value have the same square.
pub proof fn lemma_square_of_abs(a: int)
    ensures
        abs_int(a) * abs_int(a) == a * a,
{
    assert(abs_int(a) * abs_int(a) == a * a) by (nonlinear_arith)
        requires
            abs_int(a) == a || abs_int(a) == -a,
    ;
}

/// Squaring keeps the order of non-negative numbers.
pub proof fn lemma_square_monotonic(a: int, b: int)
    requires
        0 <= a,
    ensures
        a <= b ==> a * a <= b * b,
        a < b ==> a * a < b * b,
{
    if a <= b {
        assert(a * a <= b * b) by (nonlinear_arith)
            requires
                0 <= a <= b,
        ;
    }
    if a < b {
        assert(a * a < b * b) by (nonlinear_arith)
            requires
                0 <= a < b,
        ;
    }
}

} // verus!
