//! One tick of the simulation: the collision phase, then the movement
//! phase, each stage a full pass over the world before the next begins.

use vstd::prelude::*;
use crate::physics::body::{BodyView, World};
use crate::physics::detection::{broad_phase, collider_flush_pass, collision_detector_flush_pass};
use crate::physics::detection::{detect_collision_target, flush_collider, flush_collision_detector};
use crate::physics::detection::{update_vertices, vertices_pass};
use crate::physics::integrator::{movement_phase, movement_phase_spec};
use crate::physics::narrow_phase::{detect_collision, narrow_phase};
use crate::physics::resolver::{handle_static_body_collisions, resolve_all};

verus! {

/// The world when the broad and narrow phases have run on fresh records:
/// what the resolver consumes.
pub open spec fn detected(bodies: Seq<BodyView>) -> Seq<BodyView> {
    let placed = vertices_pass(collision_detector_flush_pass(collider_flush_pass(bodies)));
    let scanned = broad_phase(placed);
    narrow_phase(scanned, scanned.len())
}

/// The whole collision phase: the records of the last tick are forgotten,
/// the boxes are placed, candidates are found and tested, and overlaps
/// with static bodies are resolved.
pub open spec fn collision_phase_spec(bodies: Seq<BodyView>) -> Seq<BodyView> {
    let found = detected(bodies);
    resolve_all(found, found.len())
}

/// One tick over a step of `dt` nanoseconds: the collision phase, then the movement
/// phase.
pub open spec fn tick_spec(bodies: Seq<BodyView>, dt: i64) -> Seq<BodyView> {
    movement_phase_spec(collision_phase_spec(bodies), dt)
}

/// Runs the collision phase of one tick.
pub fn collision_phase(world: &mut World)
    ensures
        final(world)@ == collision_phase_spec(old(world)@),
{
    flush_collider(world);
    flush_collision_detector(world);
    update_vertices(world);
    detect_collision_target(world);
    detect_collision(world);
    handle_static_body_collisions(world);
}

/// Runs one tick over a step of `dt` nanoseconds.
pub fn tick(world: &mut World, dt: i64)
    ensures
        final(world)@ == tick_spec(old(world)@, dt),
{
    collision_phase(world);
    movement_phase(world, dt);
}

} // verus!
