//! The movement phase: five stages in a fixed order, each a full pass over
//! the world.

use vstd::prelude::*;
use crate::physics::body::{BodyView, World};

verus! {

/// The friction stage for linear motion, over every body.
pub open spec fn linear_friction_pass(bodies: Seq<BodyView>) -> Seq<BodyView> {
    Seq::new(bodies.len(), |i: int| bodies[i].linear_friction_applied())
}

/// The friction stage for angular motion, over every body.
pub open spec fn angular_friction_pass(bodies: Seq<BodyView>) -> Seq<BodyView> {
    Seq::new(bodies.len(), |i: int| bodies[i].angular_friction_applied())
}

/// The force-scaling stage for linear motion, over every body.
pub open spec fn linear_force_factor_pass(bodies: Seq<BodyView>) -> Seq<BodyView> {
    Seq::new(bodies.len(), |i: int| bodies[i].linear_force_factor_applied())
}

/// The force-scaling stage for angular motion, over every body.
pub open spec fn angular_force_factor_pass(bodies: Seq<BodyView>) -> Seq<BodyView> {
    Seq::new(bodies.len(), |i: int| bodies[i].angular_force_factor_applied())
}

/// The velocity integration for linear motion, over every body.
pub open spec fn linear_velocity_pass(bodies: Seq<BodyView>, dt: i64) -> Seq<BodyView> {
    Seq::new(bodies.len(), |i: int| bodies[i].linear_velocity_applied(dt))
}

/// The velocity integration for angular motion, over every body.
pub open spec fn angular_velocity_pass(bodies: Seq<BodyView>, dt: i64) -> Seq<BodyView> {
    Seq::new(bodies.len(), |i: int| bodies[i].angular_velocity_applied(dt))
}

/// The speed limit for linear motion, over every body.
pub open spec fn linear_max_velocity_pass(bodies: Seq<BodyView>) -> Seq<BodyView> {
    Seq::new(bodies.len(), |i: int| bodies[i].linear_max_velocity_applied())
}

/// The speed limit for angular motion, over every body.
pub open spec fn angular_max_velocity_pass(bodies: Seq<BodyView>) -> Seq<BodyView> {
    Seq::new(bodies.len(), |i: int| bodies[i].angular_max_velocity_applied())
}

/// The position integration, over every body.
pub open spec fn position_pass(bodies: Seq<BodyView>, dt: i64) -> Seq<BodyView> {
    Seq::new(bodies.len(), |i: int| bodies[i].position_updated(dt))
}

/// The rotation integration, over every body.
pub open spec fn rotation_pass(bodies: Seq<BodyView>, dt: i64) -> Seq<BodyView> {
    Seq::new(bodies.len(), |i: int| bodies[i].rotation_updated(dt))
}

/// Applies friction to every body that has a linear velocity and a linear
/// friction.
pub fn apply_linear_friction(world: &mut World)
    ensures
        final(world)@ == linear_friction_pass(old(world)@),
{
    let n: usize = world.bodies.len();
    let mut i: usize = 0;
    while i < n
        invariant
            i <= n,
            n == world.bodies@.len(),
            n == old(world).bodies@.len(),
            forall|j: int|
                0 <= j < i ==> (#[trigger] world.bodies@[j])@ == old(world).bodies@[j]@.linear_friction_applied(),
            forall|j: int| i <= j < n ==> (#[trigger] world.bodies@[j]) == old(world).bodies@[j],
        decreases n - i,
    {
        world.bodies[i].apply_linear_friction();
        i += 1;
    }
    assert(world@ =~= linear_friction_pass(old(world)@));
}

/// Applies friction to every body that has an angular velocity and an
/// angular friction.
pub fn apply_angular_friction(world: &mut World)
    ensures
        final(world)@ == angular_friction_pass(old(world)@),
{
    let n: usize = world.bodies.len();
    let mut i: usize = 0;
    while i < n
        invariant
            i <= n,
            n == world.bodies@.len(),
            n == old(world).bodies@.len(),
            forall|j: int|
                0 <= j < i ==> (#[trigger] world.bodies@[j])@ == old(world).bodies@[j]@.angular_friction_applied(),
            forall|j: int| i <= j < n ==> (#[trigger] world.bodies@[j]) == old(world).bodies@[j],
        decreases n - i,
    {
        world.bodies[i].apply_angular_friction();
        i += 1;
    }
    assert(world@ =~= angular_friction_pass(old(world)@));
}

/// Scales the pending force of every body that has a linear velocity and a
/// linear force factor.
pub fn apply_linear_force_factor(world: &mut World)
    ensures
        final(world)@ == linear_force_factor_pass(old(world)@),
{
    let n: usize = world.bodies.len();
    let mut i: usize = 0;
    while i < n
        invariant
            i <= n,
            n == world.bodies@.len(),
            n == old(world).bodies@.len(),
            forall|j: int|
                0 <= j < i ==> (#[trigger] world.bodies@[j])@ == old(world).bodies@[j]@.linear_force_factor_applied(),
            forall|j: int| i <= j < n ==> (#[trigger] world.bodies@[j]) == old(world).bodies@[j],
        decreases n - i,
    {
        world.bodies[i].apply_linear_force_factor();
        i += 1;
    }
    assert(world@ =~= linear_force_factor_pass(old(world)@));
}

/// Scales the pending torque of every body that has an angular velocity and
/// an angular force factor.
pub fn apply_angular_force_factor(world: &mut World)
    ensures
        final(world)@ == angular_force_factor_pass(old(world)@),
{
    let n: usize = world.bodies.len();
    let mut i: usize = 0;
    while i < n
        invariant
            i <= n,
            n == world.bodies@.len(),
            n == old(world).bodies@.len(),
            forall|j: int|
                0 <= j < i ==> (#[trigger] world.bodies@[j])@ == old(world).bodies@[j]@.angular_force_factor_applied(),
            forall|j: int| i <= j < n ==> (#[trigger] world.bodies@[j]) == old(world).bodies@[j],
        decreases n - i,
    {
        world.bodies[i].apply_angular_force_factor();
        i += 1;
    }
    assert(world@ =~= angular_force_factor_pass(old(world)@));
}

/// Integrates the pending force of every body with a linear velocity over a
/// step of `dt` nanoseconds, and clears it.
pub fn apply_linear_velocity(world: &mut World, dt: i64)
    ensures
        final(world)@ == linear_velocity_pass(old(world)@, dt),
{
    let n: usize = world.bodies.len();
    let mut i: usize = 0;
    while i < n
        invariant
            i <= n,
            n == world.bodies@.len(),
            n == old(world).bodies@.len(),
            forall|j: int|
                0 <= j < i ==> (#[trigger] world.bodies@[j])@ == old(world).bodies@[j]@.linear_velocity_applied(dt),
            forall|j: int| i <= j < n ==> (#[trigger] world.bodies@[j]) == old(world).bodies@[j],
        decreases n - i,
    {
        world.bodies[i].apply_linear_velocity(dt);
        i += 1;
    }
    assert(world@ =~= linear_velocity_pass(old(world)@, dt));
}

/// Integrates the pending torque of every body with an angular velocity over
/// a step of `dt`, and clears it.
pub fn apply_angular_velocity(world: &mut World, dt: i64)
    ensures
        final(world)@ == angular_velocity_pass(old(world)@, dt),
{
    let n: usize = world.bodies.len();
    let mut i: usize = 0;
    while i < n
        invariant
            i <= n,
            n == world.bodies@.len(),
            n == old(world).bodies@.len(),
            forall|j: int|
                0 <= j < i ==> (#[trigger] world.bodies@[j])@ == old(world).bodies@[j]@.angular_velocity_applied(dt),
            forall|j: int| i <= j < n ==> (#[trigger] world.bodies@[j]) == old(world).bodies@[j],
        decreases n - i,
    {
        world.bodies[i].apply_angular_velocity(dt);
        i += 1;
    }
    assert(world@ =~= angular_velocity_pass(old(world)@, dt));
}

/// Limits the speed of every body that has a linear velocity and a linear
/// speed limit.
pub fn apply_linear_max_velocity(world: &mut World)
    ensures
        final(world)@ == linear_max_velocity_pass(old(world)@),
{
    let n: usize = world.bodies.len();
    let mut i: usize = 0;
    while i < n
        invariant
            i <= n,
            n == world.bodies@.len(),
            n == old(world).bodies@.len(),
            forall|j: int|
                0 <= j < i ==> (#[trigger] world.bodies@[j])@ == old(world).bodies@[j]@.linear_max_velocity_applied(),
            forall|j: int| i <= j < n ==> (#[trigger] world.bodies@[j]) == old(world).bodies@[j],
        decreases n - i,
    {
        world.bodies[i].apply_linear_max_velocity();
        i += 1;
    }
    assert(world@ =~= linear_max_velocity_pass(old(world)@));
}

/// Limits the angular speed of every body that has an angular velocity and an
/// angular speed limit.
pub fn apply_angular_max_velocity(world: &mut World)
    ensures
        final(world)@ == angular_max_velocity_pass(old(world)@),
{
    let n: usize = world.bodies.len();
    let mut i: usize = 0;
    while i < n
        invariant
            i <= n,
            n == world.bodies@.len(),
            n == old(world).bodies@.len(),
            forall|j: int|
                0 <= j < i ==> (#[trigger] world.bodies@[j])@ == old(world).bodies@[j]@.angular_max_velocity_applied(),
            forall|j: int| i <= j < n ==> (#[trigger] world.bodies@[j]) == old(world).bodies@[j],
        decreases n - i,
    {
        world.bodies[i].apply_angular_max_velocity();
        i += 1;
    }
    assert(world@ =~= angular_max_velocity_pass(old(world)@));
}

/// Moves every body with a linear velocity by that velocity times `dt` nanoseconds.
pub fn update_position(world: &mut World, dt: i64)
    ensures
        final(world)@ == position_pass(old(world)@, dt),
{
    let n: usize = world.bodies.len();
    let mut i: usize = 0;
    while i < n
        invariant
            i <= n,
            n == world.bodies@.len(),
            n == old(world).bodies@.len(),
            forall|j: int|
                0 <= j < i ==> (#[trigger] world.bodies@[j])@ == old(world).bodies@[j]@.position_updated(dt),
            forall|j: int| i <= j < n ==> (#[trigger] world.bodies@[j]) == old(world).bodies@[j],
        decreases n - i,
    {
        world.bodies[i].update_position(dt);
        i += 1;
    }
    assert(world@ =~= position_pass(old(world)@, dt));
}

/// Turns every body with an angular velocity by that velocity times `dt` nanoseconds.
pub fn update_rotation(world: &mut World, dt: i64)
    ensures
        final(world)@ == rotation_pass(old(world)@, dt),
{
    let n: usize = world.bodies.len();
    let mut i: usize = 0;
    while i < n
        invariant
            i <= n,
            n == world.bodies@.len(),
            n == old(world).bodies@.len(),
            forall|j: int|
                0 <= j < i ==> (#[trigger] world.bodies@[j])@ == old(world).bodies@[j]@.rotation_updated(dt),
            forall|j: int| i <= j < n ==> (#[trigger] world.bodies@[j]) == old(world).bodies@[j],
        decreases n - i,
    {
        world.bodies[i].update_rotation(dt);
        i += 1;
    }
    assert(world@ =~= rotation_pass(old(world)@, dt));
}

/// The whole movement phase over a step of `dt` nanoseconds: friction, force scaling,
/// velocity integration, speed limit, then position and rotation.
pub open spec fn movement_phase_spec(bodies: Seq<BodyView>, dt: i64) -> Seq<BodyView> {
    let b1 = angular_friction_pass(linear_friction_pass(bodies));
    let b2 = angular_force_factor_pass(linear_force_factor_pass(b1));
    let b3 = angular_velocity_pass(linear_velocity_pass(b2, dt), dt);
    let b4 = angular_max_velocity_pass(linear_max_velocity_pass(b3));
    rotation_pass(position_pass(b4, dt), dt)
}

/// Runs the movement phase of one tick over a step of `dt` nanoseconds.
pub fn movement_phase(world: &mut World, dt: i64)
    ensures
        final(world)@ == movement_phase_spec(old(world)@, dt),
{
    apply_linear_friction(world);
    apply_angular_friction(world);
    apply_linear_force_factor(world);
    apply_angular_force_factor(world);
    apply_linear_velocity(world, dt);
    apply_angular_velocity(world, dt);
    apply_linear_max_velocity(world);
    apply_angular_max_velocity(world);
    update_position(world, dt);
    update_rotation(world, dt);
}

} // verus!
