//! Kinematic state, its optional modifiers, and the stages that integrate
//! forces into velocities and velocities into positions.

use vstd::prelude::*;
use crate::fixed::{abs_int, min_int, sat_abs, sat_add, sat_mul, sat_neg, sat_over, saturate};
use crate::fixed::{magnitude, narrow, negate, over, plus, times, unsigned_magnitude, SCALE};
use crate::root::{ceil_root, ceil_sqrt};
use crate::vec2::Vec2;

verus! {

/// The raw magnitude below which an angular velocity is snapped to rest: one
/// hundredth of a unit.
pub const ANGULAR_REST: i64 = 10;

/// Linear velocity and the force gathered for the next integration.
#[derive(Clone, Copy, Debug, PartialEq, Eq, Structural)]
pub struct LinearVelocity {
    pub value: Vec2,
    pub force: Vec2,
}

/// Cap on the length of a linear velocity.
#[derive(Clone, Copy, Debug, PartialEq, Eq, Structural)]
pub struct LinearMaxVelocity {
    pub value: i64,
}

/// Per-axis multipliers for the pending force: `positive` where the force
/// agrees in sign with the velocity, `negative` where it does not.
#[derive(Clone, Copy, Debug, PartialEq, Eq, Structural)]
pub struct LinearForceFactor {
    pub positive: Vec2,
    pub negative: Vec2,
}

/// Another name for [`LinearForceFactor`].
pub type LinearForceScaler = LinearForceFactor;

/// Per-axis bound on the force that opposes a linear velocity.
#[derive(Clone, Copy, Debug, PartialEq, Eq, Structural)]
pub struct LinearFriction {
    pub value: Vec2,
}

/// Angular velocity and the torque gathered for the next integration.
#[derive(Clone, Copy, Debug, PartialEq, Eq, Structural)]
pub struct AngularVelocity {
    pub value: i64,
    pub force: i64,
}

/// Cap on the magnitude of an angular velocity.
#[derive(Clone, Copy, Debug, PartialEq, Eq, Structural)]
pub struct AngularMaxVelocity {
    pub value: i64,
}

/// Multipliers for the pending torque: `positive` where it agrees in sign
/// with the angular velocity, `negative` where it does not.
#[derive(Clone, Copy, Debug, PartialEq, Eq, Structural)]
pub struct AngularForceFactor {
    pub positive: i64,
    pub negative: i64,
}

/// Bound on the torque that opposes an angular velocity.
#[derive(Clone, Copy, Debug, PartialEq, Eq, Structural)]
pub struct AngularFriction {
    pub value: i64,
}

/// The force that friction `bound` sets against velocity component `v`: its
/// size is the smaller of `|v|` and `bound`, its direction is against `v`.
/// A component at rest counts as moving in the positive direction.
pub open spec fn opposing_force(v: i64, bound: i64) -> i64 {
    let m = min_int(sat_abs(v) as int, bound as int) as i64;
    if v < 0 {
        m
    } else {
        sat_neg(m)
    }
}

/// Whether a force component pushes the way the velocity component already
/// goes. Zero counts as positive.
pub open spec fn same_direction(v: i64, force: i64) -> bool {
    (v >= 0) == (force >= 0)
}

/// A pending force component after scaling by the factor for its direction.
pub open spec fn factored_force(v: i64, force: i64, positive: i64, negative: i64) -> i64 {
    if same_direction(v, force) {
        sat_mul(force, positive)
    } else {
        sat_mul(force, negative)
    }
}

/// An angular velocity limited to magnitude `cap`, keeping its sign.
pub open spec fn capped(v: i64, cap: i64) -> i64 {
    let m = min_int(sat_abs(v) as int, cap as int) as i64;
    if v < 0 {
        sat_neg(m)
    } else {
        m
    }
}

/// One component of a velocity that is longer than the cap: the component
/// times `cap`, divided by the rounded-up length `len`, rounded toward zero.
pub open spec fn shortened(c: i64, cap: i64, len: int) -> i64 {
    let q = (abs_int(c as int) * abs_int(cap as int)) / len;
    if (c < 0) == (cap < 0) {
        saturate(q)
    } else {
        saturate(-q)
    }
}

/// A linear velocity limited to length `cap`, keeping its direction. A
/// velocity no longer than the cap is returned as it is.
pub open spec fn clamped(v: Vec2, cap: i64) -> Vec2 {
    if v.spec_length_squared() > cap * cap {
        let len = ceil_sqrt(v.spec_length_squared());
        Vec2 { x: shortened(v.x, cap, len), y: shortened(v.y, cap, len) }
    } else {
        v
    }
}

impl LinearVelocity {
    /// The state at rest with no pending force.
    pub open spec fn spec_zero() -> LinearVelocity {
        LinearVelocity { value: Vec2::spec_zero(), force: Vec2::spec_zero() }
    }

    /// The state after `force` has been added to the pending force.
    pub open spec fn spec_apply_force(self, force: Vec2) -> LinearVelocity {
        LinearVelocity { value: self.value, force: self.force.spec_plus(force) }
    }

    /// Whether the velocity is inside the rest zone: shorter than one unit.
    pub open spec fn at_rest(self) -> bool {
        self.value.spec_length_squared() < SCALE * SCALE
    }

    /// The friction stage. Inside the rest zone the velocity becomes zero and
    /// the pending force is untouched; outside it the opposing force is added
    /// to the pending force.
    pub open spec fn with_friction(self, friction: LinearFriction) -> LinearVelocity {
        if self.at_rest() {
            LinearVelocity { value: Vec2::spec_zero(), force: self.force }
        } else {
            self.spec_apply_force(
                Vec2 {
                    x: opposing_force(self.value.x, friction.value.x),
                    y: opposing_force(self.value.y, friction.value.y),
                },
            )
        }
    }

    /// The force-scaling stage.
    pub open spec fn with_force_factor(self, factor: LinearForceFactor) -> LinearVelocity {
        LinearVelocity {
            value: self.value,
            force: Vec2 {
                x: factored_force(self.value.x, self.force.x, factor.positive.x, factor.negative.x),
                y: factored_force(self.value.y, self.force.y, factor.positive.y, factor.negative.y),
            },
        }
    }

    /// The velocity-integration stage over a step of `dt` nanoseconds.
    pub open spec fn integrated(self, dt: i64) -> LinearVelocity {
        LinearVelocity {
            value: self.value.spec_plus(self.force.spec_over(dt)),
            force: Vec2::spec_zero(),
        }
    }

    /// The speed-limit stage.
    pub open spec fn with_max_velocity(self, max: LinearMaxVelocity) -> LinearVelocity {
        LinearVelocity { value: clamped(self.value, max.value), force: self.force }
    }

    /// The position that a body at `position` reaches after a step of `dt`
    /// nanoseconds.
    pub open spec fn spec_moved(self, position: Vec2, dt: i64) -> Vec2 {
        position.spec_plus(self.value.spec_over(dt))
    }

    pub fn zero() -> (r: LinearVelocity)
        ensures
            r == LinearVelocity::spec_zero(),
    {
        LinearVelocity { value: Vec2::zero(), force: Vec2::zero() }
    }

    pub fn new(value: Vec2, force: Vec2) -> (r: LinearVelocity)
        ensures
            r == (LinearVelocity { value, force }),
    {
        LinearVelocity { value, force }
    }

    /// Replaces the velocity; the pending force stays.
    pub fn set(&mut self, value: Vec2)
        ensures
            *final(self) == (LinearVelocity { value, force: old(self).force }),
    {
        self.value = value;
    }

    /// Adds to the pending force.
    pub fn apply_force(&mut self, force: Vec2)
        ensures
            *final(self) == old(self).spec_apply_force(force),
    {
        self.force = self.force.plus(force);
    }

    /// Clears the pending force; the velocity stays.
    pub fn flush(&mut self)
        ensures
            *final(self) == (LinearVelocity { value: old(self).value, force: Vec2::spec_zero() }),
    {
        self.force = Vec2::zero();
    }

    /// Applies friction: snaps a velocity inside the rest zone to zero, and
    /// otherwise adds the opposing force to the pending force.
    pub fn apply_friction(&mut self, friction: &LinearFriction)
        ensures
            *final(self) == old(self).with_friction(*friction),
    {
        if self.value.length_squared() < 1_000_000 {
            self.value = Vec2::zero();
        } else {
            let force: Vec2 = Vec2 {
                x: opposing(self.value.x, friction.value.x),
                y: opposing(self.value.y, friction.value.y),
            };
            self.apply_force(force);
        }
    }

    /// Scales the pending force, per axis, by the factor for its direction.
    pub fn apply_force_factor(&mut self, factor: &LinearForceFactor)
        ensures
            *final(self) == old(self).with_force_factor(*factor),
    {
        self.force = Vec2 {
            x: factored(self.value.x, self.force.x, factor.positive.x, factor.negative.x),
            y: factored(self.value.y, self.force.y, factor.positive.y, factor.negative.y),
        };
    }

    /// Adds the pending force times `dt` to the velocity, then clears the
    /// pending force.
    pub fn integrate(&mut self, dt: i64)
        ensures
            *final(self) == old(self).integrated(dt),
    {
        self.value = self.value.plus(self.force.over(dt));
        self.flush();
    }

    /// Limits the length of the velocity to the cap.
    pub fn apply_max_velocity(&mut self, max: &LinearMaxVelocity)
        ensures
            *final(self) == old(self).with_max_velocity(*max),
    {
        self.value = clamp_length(self.value, max.value);
    }

    /// The position reached from `position` after a step of `dt` at this
    /// velocity.
    pub fn moved(&self, position: Vec2, dt: i64) -> (r: Vec2)
        ensures
            r == self.spec_moved(position, dt),
    {
        position.plus(self.value.over(dt))
    }
}

impl LinearMaxVelocity {
    pub fn new(value: i64) -> (r: LinearMaxVelocity)
        ensures
            r == (LinearMaxVelocity { value }),
    {
        LinearMaxVelocity { value }
    }

    pub fn set(&mut self, value: i64)
        ensures
            *final(self) == (LinearMaxVelocity { value }),
    {
        self.value = value;
    }
}

impl LinearForceFactor {
    pub fn new(positive: Vec2, negative: Vec2) -> (r: LinearForceFactor)
        ensures
            r == (LinearForceFactor { positive, negative }),
    {
        LinearForceFactor { positive, negative }
    }

    /// The factor that scales a force by `value` whatever its direction.
    pub fn splat(value: Vec2) -> (r: LinearForceFactor)
        ensures
            r == (LinearForceFactor { positive: value, negative: value }),
    {
        LinearForceFactor { positive: value, negative: value }
    }

    pub fn set_positive(&mut self, positive: Vec2)
        ensures
            *final(self) == (LinearForceFactor { positive, negative: old(self).negative }),
    {
        self.positive = positive;
    }

    pub fn set_negative(&mut self, negative: Vec2)
        ensures
            *final(self) == (LinearForceFactor { positive: old(self).positive, negative }),
    {
        self.negative = negative;
    }
}

impl LinearFriction {
    pub fn new(value: Vec2) -> (r: LinearFriction)
        ensures
            r == (LinearFriction { value }),
    {
        LinearFriction { value }
    }

    pub fn set(&mut self, value: Vec2)
        ensures
            *final(self) == (LinearFriction { value }),
    {
        self.value = value;
    }
}

impl AngularVelocity {
    /// The state at rest with no pending torque.
    pub open spec fn spec_zero() -> AngularVelocity {
        AngularVelocity { value: 0, force: 0 }
    }

    /// The state after `force` has been added to the pending torque.
    pub open spec fn spec_apply_force(self, force: i64) -> AngularVelocity {
        AngularVelocity { value: self.value, force: sat_add(self.force, force) }
    }

    /// Whether the velocity is inside the rest zone: below a hundredth of a
    /// unit in magnitude.
    pub open spec fn at_rest(self) -> bool {
        abs_int(self.value as int) < ANGULAR_REST
    }

    /// The friction stage. Inside the rest zone the velocity becomes zero and
    /// the pending torque is untouched; outside it the opposing torque is
    /// added to the pending torque.
    pub open spec fn with_friction(self, friction: AngularFriction) -> AngularVelocity {
        if self.at_rest() {
            AngularVelocity { value: 0, force: self.force }
        } else {
            self.spec_apply_force(opposing_force(self.value, friction.value))
        }
    }

    /// The force-scaling stage.
    pub open spec fn with_force_factor(self, factor: AngularForceFactor) -> AngularVelocity {
        AngularVelocity {
            value: self.value,
            force: factored_force(self.value, self.force, factor.positive, factor.negative),
        }
    }

    /// The velocity-integration stage over a step of `dt` nanoseconds.
    pub open spec fn integrated(self, dt: i64) -> AngularVelocity {
        AngularVelocity { value: sat_add(self.value, sat_over(self.force, dt)), force: 0 }
    }

    /// The speed-limit stage.
    pub open spec fn with_max_velocity(self, max: AngularMaxVelocity) -> AngularVelocity {
        AngularVelocity { value: capped(self.value, max.value), force: self.force }
    }

    /// The rotation that a body at `rotation` reaches after a step of `dt`
    /// nanoseconds.
    pub open spec fn spec_turned(self, rotation: i64, dt: i64) -> i64 {
        sat_add(rotation, sat_over(self.value, dt))
    }

    pub fn zero() -> (r: AngularVelocity)
        ensures
            r == AngularVelocity::spec_zero(),
    {
        AngularVelocity { value: 0, force: 0 }
    }

    pub fn new(value: i64, force: i64) -> (r: AngularVelocity)
        ensures
            r == (AngularVelocity { value, force }),
    {
        AngularVelocity { value, force }
    }

    /// Replaces the velocity; the pending torque stays.
    pub fn set(&mut self, value: i64)
        ensures
            *final(self) == (AngularVelocity { value, force: old(self).force }),
    {
        self.value = value;
    }

    /// Adds to the pending torque.
    pub fn apply_force(&mut self, force: i64)
        ensures
            *final(self) == old(self).spec_apply_force(force),
    {
        self.force = plus(self.force, force);
    }

    /// Clears the pending torque; the velocity stays.
    pub fn flush(&mut self)
        ensures
            *final(self) == (AngularVelocity { value: old(self).value, force: 0 }),
    {
        self.force = 0;
    }

    /// Applies friction: snaps a velocity inside the rest zone to zero, and
    /// otherwise adds the opposing torque to the pending torque.
    pub fn apply_friction(&mut self, friction: &AngularFriction)
        ensures
            *final(self) == old(self).with_friction(*friction),
    {
        if unsigned_magnitude(self.value) < 10 {
            self.value = 0;
        } else {
            let force: i64 = opposing(self.value, friction.value);
            self.apply_force(force);
        }
    }

    /// Scales the pending torque by the factor for its direction.
    pub fn apply_force_factor(&mut self, factor: &AngularForceFactor)
        ensures
            *final(self) == old(self).with_force_factor(*factor),
    {
        self.force = factored(self.value, self.force, factor.positive, factor.negative);
    }

    /// Adds the pending torque times `dt` to the velocity, then clears the
    /// pending torque.
    pub fn integrate(&mut self, dt: i64)
        ensures
            *final(self) == old(self).integrated(dt),
    {
        self.value = plus(self.value, over(self.force, dt));
        self.flush();
    }

    /// Limits the magnitude of the velocity to the cap.
    pub fn apply_max_velocity(&mut self, max: &AngularMaxVelocity)
        ensures
            *final(self) == old(self).with_max_velocity(*max),
    {
        self.value = cap_magnitude(self.value, max.value);
    }

    /// The rotation reached from `rotation` after a step of `dt` at this
    /// velocity.
    pub fn turned(&self, rotation: i64, dt: i64) -> (r: i64)
        ensures
            r == self.spec_turned(rotation, dt),
    {
        plus(rotation, over(self.value, dt))
    }
}

impl AngularMaxVelocity {
    pub fn new(value: i64) -> (r: AngularMaxVelocity)
        ensures
            r == (AngularMaxVelocity { value }),
    {
        AngularMaxVelocity { value }
    }

    pub fn set(&mut self, value: i64)
        ensures
            *final(self) == (AngularMaxVelocity { value }),
    {
        self.value = value;
    }
}

impl AngularForceFactor {
    pub fn new(positive: i64, negative: i64) -> (r: AngularForceFactor)
        ensures
            r == (AngularForceFactor { positive, negative }),
    {
        AngularForceFactor { positive, negative }
    }

    /// The factor that scales a torque by `value` whatever its direction.
    pub fn splat(value: i64) -> (r: AngularForceFactor)
        ensures
            r == (AngularForceFactor { positive: value, negative: value }),
    {
        AngularForceFactor { positive: value, negative: value }
    }

    pub fn set_positive(&mut self, positive: i64)
        ensures
            *final(self) == (AngularForceFactor { positive, negative: old(self).negative }),
    {
        self.positive = positive;
    }

    pub fn set_negative(&mut self, negative: i64)
        ensures
            *final(self) == (AngularForceFactor { positive: old(self).positive, negative }),
    {
        self.negative = negative;
    }
}

impl AngularFriction {
    pub fn new(value: i64) -> (r: AngularFriction)
        ensures
            r == (AngularFriction { value }),
    {
        AngularFriction { value }
    }

    pub fn set(&mut self, value: i64)
        ensures
            *final(self) == (AngularFriction { value }),
    {
        self.value = value;
    }
}

/// Computes the force that friction `bound` sets against component `v`.
pub fn opposing(v: i64, bound: i64) -> (r: i64)
    ensures
        r == opposing_force(v, bound),
{
    let a: i64 = magnitude(v);
    let m: i64 = if a <= bound { a } else { bound };
    if v < 0 {
        m
    } else {
        negate(m)
    }
}

/// Scales a pending force component by the factor for its direction.
pub fn factored(v: i64, force: i64, positive: i64, negative: i64) -> (r: i64)
    ensures
        r == factored_force(v, force, positive, negative),
{
    if (v >= 0) == (force >= 0) {
        times(force, positive)
    } else {
        times(force, negative)
    }
}

/// Limits an angular velocity to magnitude `cap`, keeping its sign.
pub fn cap_magnitude(v: i64, cap: i64) -> (r: i64)
    ensures
        r == capped(v, cap),
{
    let a: i64 = magnitude(v);
    let m: i64 = if a <= cap { a } else { cap };
    if v < 0 {
        negate(m)
    } else {
        m
    }
}

/// Limits a linear velocity to length `cap`, keeping its direction.
pub fn clamp_length(v: Vec2, cap: i64) -> (r: Vec2)
    ensures
        r == clamped(v, cap),
{
    let s: u128 = v.length_squared();
    let c: u128 = unsigned_magnitude(cap) as u128;
    proof {
        crate::vec2::lemma_square_bound(c as int);
        crate::vec2::lemma_square_of_abs(cap as int);
    }
    if s > c * c {
        let len: u128 = ceil_root(s);
        Vec2 { x: shorten(v.x, cap, len), y: shorten(v.y, cap, len) }
    } else {
        v
    }
}

/// Computes one component of a velocity that is longer than the cap.
fn shorten(c: i64, cap: i64, len: u128) -> (r: i64)
    requires
        len > 0,
    ensures
        r == shortened(c, cap, len as int),
{
    let a: u128 = unsigned_magnitude(c) as u128;
    let k: u128 = unsigned_magnitude(cap) as u128;
    proof {
        crate::fixed::lemma_product_bound(c, cap);
        assert(a * k <= 0x4000_0000_0000_0000_0000_0000_0000_0000) by (nonlinear_arith)
            requires
                0 <= a <= 0x8000_0000_0000_0000,
                0 <= k <= 0x8000_0000_0000_0000,
        ;
    }
    let q: u128 = (a * k) / len;
    proof {
        let p: int = a * k;
        let d: int = len as int;
        assert(0 <= p / d <= p) by (nonlinear_arith)
            requires
                d >= 1,
                p >= 0,
        ;
    }
    if (c < 0) == (cap < 0) {
        narrow(q as i128)
    } else {
        narrow(-(q as i128))
    }
}

} // verus!
