//! What holds of the movement stages for every input.

use vstd::prelude::*;
use crate::fixed::{abs_int, min_int, trunc_div, STEPS_PER_SECOND};
use crate::physics::movement::{capped, clamped, opposing_force};
use crate::physics::movement::{AngularFriction, AngularVelocity, LinearFriction, LinearVelocity};
use crate::root::{ceil_sqrt, lemma_ceil_sqrt_exists};
use crate::vec2::Vec2;

verus! {

/// Against a non-negative friction bound, the opposing force has the size
/// of the smaller of `|v|` and the bound, and never points the way `v` does.
pub proof fn lemma_opposing_force(v: i64, bound: i64)
    requires
        bound >= 0,
    ensures
        abs_int(opposing_force(v, bound) as int) == min_int(abs_int(v as int), bound as int),
        v > 0 ==> opposing_force(v, bound) <= 0,
        v < 0 ==> opposing_force(v, bound) >= 0,
        v == 0 ==> opposing_force(v, bound) == 0,
{
}

/// Outside the rest zone, linear friction leaves the velocity as it is and
/// adds to the pending force, on each axis, a force of size
/// `min(|v|, bound)` that does not point the way the velocity does.
pub proof fn lemma_linear_friction_moving(velocity: LinearVelocity, friction: LinearFriction)
    requires
        !velocity.at_rest(),
        friction.value.x >= 0,
        friction.value.y >= 0,
    ensures
        ({
            let added = Vec2 {
                x: opposing_force(velocity.value.x, friction.value.x),
                y: opposing_force(velocity.value.y, friction.value.y),
            };
            &&& velocity.with_friction(friction).value == velocity.value
            &&& velocity.with_friction(friction).force == velocity.force.spec_plus(added)
            &&& abs_int(added.x as int) == min_int(
                abs_int(velocity.value.x as int),
                friction.value.x as int,
            )
            &&& abs_int(added.y as int) == min_int(
                abs_int(velocity.value.y as int),
                friction.value.y as int,
            )
            &&& velocity.value.x > 0 ==> added.x <= 0
            &&& velocity.value.x < 0 ==> added.x >= 0
            &&& velocity.value.y > 0 ==> added.y <= 0
            &&& velocity.value.y < 0 ==> added.y >= 0
        }),
{
    lemma_opposing_force(velocity.value.x, friction.value.x);
    lemma_opposing_force(velocity.value.y, friction.value.y);
}

/// Outside the rest zone, angular friction leaves the velocity as it is and
/// adds to the pending torque a torque of size `min(|v|, bound)` that does
/// not point the way the velocity does.
pub proof fn lemma_angular_friction_moving(velocity: AngularVelocity, friction: AngularFriction)
    requires
        !velocity.at_rest(),
        friction.value >= 0,
    ensures
        ({
            let added = opposing_force(velocity.value, friction.value);
            &&& velocity.with_friction(friction).value == velocity.value
            &&& velocity.with_friction(friction) == velocity.spec_apply_force(added)
            &&& abs_int(added as int) == min_int(abs_int(velocity.value as int), friction.value as int)
            &&& velocity.value > 0 ==> added <= 0
            &&& velocity.value < 0 ==> added >= 0
        }),
{
    lemma_opposing_force(velocity.value, friction.value);
}

/// Inside the rest zone, one application of linear friction brings the
/// velocity to exactly zero and leaves the pending force alone.
pub proof fn lemma_linear_friction_resting(velocity: LinearVelocity, friction: LinearFriction)
    requires
        velocity.at_rest(),
    ensures
        velocity.with_friction(friction).value == Vec2::spec_zero(),
        velocity.with_friction(friction).force == velocity.force,
{
}

/// Inside the rest zone, one application of angular friction brings the
/// velocity to exactly zero and leaves the pending torque alone.
pub proof fn lemma_angular_friction_resting(velocity: AngularVelocity, friction: AngularFriction)
    requires
        velocity.at_rest(),
    ensures
        velocity.with_friction(friction).value == 0,
        velocity.with_friction(friction).force == velocity.force,
{
}

/// Under a non-negative cap, a limited angular velocity is within the cap,
/// and limiting it again changes nothing.
pub proof fn lemma_capped_idempotent(v: i64, cap: i64)
    requires
        cap >= 0,
    ensures
        abs_int(capped(v, cap) as int) <= cap,
        capped(capped(v, cap), cap) == capped(v, cap),
{
}

/// Under a non-negative cap, a limited linear velocity is no longer than the
/// cap.
pub proof fn lemma_clamped_within_cap(v: Vec2, cap: i64)
    requires
        cap >= 0,
    ensures
        clamped(v, cap).spec_length_squared() <= cap * cap,
{
    let s = v.spec_length_squared();
    if s > cap * cap {
        let len = ceil_sqrt(s);
        let c = cap as int;
        assert(c * c >= 0) by (nonlinear_arith);
        lemma_ceil_sqrt_exists(s);
        assert(len >= 1) by (nonlinear_arith)
            requires
                len >= 0,
                len * len >= s,
                s > 0,
        ;
        let a = abs_int(v.x as int);
        let b = abs_int(v.y as int);
        crate::vec2::lemma_square_of_abs(v.x as int);
        crate::vec2::lemma_square_of_abs(v.y as int);
        assert(a * a + b * b == s);
        let p = (a * c) / len;
        let q = (b * c) / len;
        lemma_quotient(a, c, len);
        lemma_quotient(b, c, len);
        crate::vec2::lemma_square_nonnegative(a);
        crate::vec2::lemma_square_nonnegative(b);
        assert(a <= len) by (nonlinear_arith)
            requires
                a >= 0,
                len >= 0,
                b * b >= 0,
                a * a + b * b <= len * len,
        ;
        assert(b <= len) by (nonlinear_arith)
            requires
                b >= 0,
                len >= 0,
                a * a >= 0,
                a * a + b * b <= len * len,
        ;
        assert(p <= c) by (nonlinear_arith)
            requires
                p * len <= a * c,
                0 <= a <= len,
                c >= 0,
                len >= 1,
                p >= 0,
        ;
        assert(q <= c) by (nonlinear_arith)
            requires
                q * len <= b * c,
                0 <= b <= len,
                c >= 0,
                len >= 1,
                q >= 0,
        ;
        lemma_scaled_squares(a, b, c, len, p, q);
        let w = clamped(v, cap);
        assert(w.x == p || w.x == -p);
        assert(w.y == q || w.y == -q);
        assert(w.x * w.x == p * p) by (nonlinear_arith)
            requires
                w.x == p || w.x == -p,
        ;
        assert(w.y * w.y == q * q) by (nonlinear_arith)
            requires
                w.y == q || w.y == -q,
        ;
    }
}

/// Limiting the length of a linear velocity is idempotent under a
/// non-negative cap.
pub proof fn lemma_clamped_idempotent(v: Vec2, cap: i64)
    requires
        cap >= 0,
    ensures
        clamped(clamped(v, cap), cap) == clamped(v, cap),
{
    lemma_clamped_within_cap(v, cap);
}

/// The quotient of two non-negative numbers, times the divisor, does not
/// exceed the dividend.
proof fn lemma_quotient(a: int, c: int, len: int)
    requires
        a >= 0,
        c >= 0,
        len >= 1,
    ensures
        0 <= (a * c) / len,
        ((a * c) / len) * len <= a * c,
{
    let n = a * c;
    assert(n >= 0) by (nonlinear_arith)
        requires
            a >= 0,
            c >= 0,
            n == a * c,
    ;
    assert(0 <= n / len && (n / len) * len <= n) by (nonlinear_arith)
        requires
            n >= 0,
            len >= 1,
    ;
}

/// If `p` and `q` are the components `a` and `b` scaled by `c / len` and
/// rounded down, and `len` is at least the length of `(a, b)`, then `(p, q)`
/// is no longer than `c`.
proof fn lemma_scaled_squares(a: int, b: int, c: int, len: int, p: int, q: int)
    requires
        a >= 0,
        b >= 0,
        c >= 0,
        len >= 1,
        p >= 0,
        q >= 0,
        p * len <= a * c,
        q * len <= b * c,
        a * a + b * b <= len * len,
    ensures
        p * p + q * q <= c * c,
{
    let pl = p * len;
    let ql = q * len;
    let ac = a * c;
    let bc = b * c;
    assert(pl >= 0 && ql >= 0) by (nonlinear_arith)
        requires
            p >= 0,
            q >= 0,
            len >= 1,
            pl == p * len,
            ql == q * len,
    ;
    assert(pl * pl <= ac * ac) by (nonlinear_arith)
        requires
            0 <= pl <= ac,
    ;
    assert(ql * ql <= bc * bc) by (nonlinear_arith)
        requires
            0 <= ql <= bc,
    ;
    let l2 = len * len;
    let c2 = c * c;
    assert(pl * pl == (p * p) * l2) by (nonlinear_arith)
        requires
            pl == p * len,
            l2 == len * len,
    ;
    assert(ql * ql == (q * q) * l2) by (nonlinear_arith)
        requires
            ql == q * len,
            l2 == len * len,
    ;
    assert(ac * ac + bc * bc == (a * a + b * b) * c2) by (nonlinear_arith)
        requires
            ac == a * c,
            bc == b * c,
            c2 == c * c,
    ;
    assert((a * a + b * b) * c2 <= l2 * c2) by (nonlinear_arith)
        requires
            a * a + b * b <= l2,
            c2 == c * c,
    ;
    let n = p * p + q * q;
    assert(n * l2 <= c2 * l2) by (nonlinear_arith)
        requires
            (p * p) * l2 + (q * q) * l2 <= l2 * c2,
            n == p * p + q * q,
    ;
    assert(l2 >= 1) by (nonlinear_arith)
        requires
            len >= 1,
            l2 == len * len,
    ;
    assert(n <= c2) by (nonlinear_arith)
        requires
            n * l2 <= c2 * l2,
            l2 >= 1,
    ;
}

/// A step of constant velocity moves a body by the velocity times the step,
/// exactly, wherever the result can be represented: the velocity per second
/// times the nanoseconds of the step, divided by the nanoseconds of a
/// second. Over a step of one second the displacement is the velocity
/// itself.
pub proof fn lemma_euler_step(velocity: LinearVelocity, position: Vec2, dt: i64)
    requires
        i64::MIN <= trunc_div(velocity.value.x * dt, STEPS_PER_SECOND as int) <= i64::MAX,
        i64::MIN <= trunc_div(velocity.value.y * dt, STEPS_PER_SECOND as int) <= i64::MAX,
        i64::MIN <= position.x + trunc_div(velocity.value.x * dt, STEPS_PER_SECOND as int)
            <= i64::MAX,
        i64::MIN <= position.y + trunc_div(velocity.value.y * dt, STEPS_PER_SECOND as int)
            <= i64::MAX,
    ensures
        velocity.spec_moved(position, dt).x == position.x + trunc_div(
            velocity.value.x * dt,
            STEPS_PER_SECOND as int,
        ),
        velocity.spec_moved(position, dt).y == position.y + trunc_div(
            velocity.value.y * dt,
            STEPS_PER_SECOND as int,
        ),
        dt == STEPS_PER_SECOND ==> velocity.spec_moved(position, dt).x == position.x
            + velocity.value.x,
        dt == STEPS_PER_SECOND ==> velocity.spec_moved(position, dt).y == position.y
            + velocity.value.y,
{
    lemma_trunc_div_exact(velocity.value.x as int);
    lemma_trunc_div_exact(velocity.value.y as int);
}

/// A multiple of the steps of a second divides by them without remainder.
pub proof fn lemma_trunc_div_exact(v: int)
    ensures
        trunc_div(v * STEPS_PER_SECOND, STEPS_PER_SECOND as int) == v,
{
    if v >= 0 {
        assert((v * 1_000_000_000) / 1_000_000_000 == v) by (nonlinear_arith)
            requires
                v >= 0,
        ;
    } else {
        assert((-(v * 1_000_000_000)) / 1_000_000_000 == -v) by (nonlinear_arith)
            requires
                v < 0,
        ;
    }
}

} // verus!
