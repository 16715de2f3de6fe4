//! The first stages of the collision phase: forgetting the last tick's
//! records, placing the boxes in the world, and the broad-phase scan.

use vstd::prelude::*;
use crate::physics::body::{Body, BodyView, World};
use crate::vec2::Vec2;

verus! {

/// Every collider forgets its collisions.
pub open spec fn collider_flush_pass(bodies: Seq<BodyView>) -> Seq<BodyView> {
    Seq::new(bodies.len(), |i: int| bodies[i].collider_flushed())
}

/// Every detector forgets its candidates.
pub open spec fn collision_detector_flush_pass(bodies: Seq<BodyView>) -> Seq<BodyView> {
    Seq::new(bodies.len(), |i: int| bodies[i].collision_detector_flushed())
}

/// Every collider gets its world corners from its body's position.
pub open spec fn vertices_pass(bodies: Seq<BodyView>) -> Seq<BodyView> {
    Seq::new(bodies.len(), |i: int| bodies[i].vertices_updated())
}

/// Whether a body can be found by a detector: it has a collider.
pub open spec fn is_target(body: BodyView) -> bool {
    body.collider is Some
}

/// Whether the broad phase offers `body` to a detector of radius `range`
/// at `origin`: the body has a collider, and the distance between the two
/// origins is below `range`. The sizes of the boxes play no part.
pub open spec fn in_reach(body: BodyView, origin: Vec2, range: i64) -> bool {
    is_target(body) && origin.spec_within(body.position, range)
}

/// The candidates that the detector of the body at index `d`, of radius
/// `range` at `origin`, finds among the first `n` bodies: every body other
/// than its own that is within reach, in the order of the bodies.
pub open spec fn candidates(
    bodies: Seq<BodyView>,
    d: int,
    origin: Vec2,
    range: i64,
    n: nat,
) -> Seq<u64>
    recommends
        n <= bodies.len(),
    decreases n,
{
    if n == 0 {
        Seq::empty()
    } else {
        let before = candidates(bodies, d, origin, range, (n - 1) as nat);
        if n - 1 != d && in_reach(bodies[n - 1], origin, range) {
            before.push(bodies[n - 1].entity)
        } else {
            before
        }
    }
}

/// The body at index `i` after the broad phase: a detector gains the
/// candidates found around its body, any other body stays as it is.
pub open spec fn scanned(bodies: Seq<BodyView>, i: int) -> BodyView {
    match bodies[i].collision_detector {
        Some(d) => bodies[i].with_targets(
            candidates(bodies, i, bodies[i].position, d.range, bodies.len()),
        ),
        None => bodies[i],
    }
}

/// The broad phase over every body.
pub open spec fn broad_phase(bodies: Seq<BodyView>) -> Seq<BodyView> {
    Seq::new(bodies.len(), |i: int| scanned(bodies, i))
}

/// Clears the collisions of every collider.
pub fn flush_collider(world: &mut World)
    ensures
        final(world)@ == collider_flush_pass(old(world)@),
{
    let n: usize = world.bodies.len();
    let mut i: usize = 0;
    while i < n
        invariant
            i <= n,
            n == world.bodies@.len(),
            n == old(world).bodies@.len(),
            forall|j: int|
                0 <= j < i ==> (#[trigger] world.bodies@[j])@ == old(
                    world,
                ).bodies@[j]@.collider_flushed(),
            forall|j: int| i <= j < n ==> (#[trigger] world.bodies@[j]) == old(world).bodies@[j],
        decreases n - i,
    {
        world.bodies[i].flush_collider();
        i += 1;
    }
    assert(world@ =~= collider_flush_pass(old(world)@));
}

/// Clears the candidates of every detector.
pub fn flush_collision_detector(world: &mut World)
    ensures
        final(world)@ == collision_detector_flush_pass(old(world)@),
{
    let n: usize = world.bodies.len();
    let mut i: usize = 0;
    while i < n
        invariant
            i <= n,
            n == world.bodies@.len(),
            n == old(world).bodies@.len(),
            forall|j: int|
                0 <= j < i ==> (#[trigger] world.bodies@[j])@ == old(
                    world,
                ).bodies@[j]@.collision_detector_flushed(),
            forall|j: int| i <= j < n ==> (#[trigger] world.bodies@[j]) == old(world).bodies@[j],
        decreases n - i,
    {
        world.bodies[i].flush_collision_detector();
        i += 1;
    }
    assert(world@ =~= collision_detector_flush_pass(old(world)@));
}

/// Recomputes the world corners of every collider from its body's position.
pub fn update_vertices(world: &mut World)
    ensures
        final(world)@ == vertices_pass(old(world)@),
{
    let n: usize = world.bodies.len();
    let mut i: usize = 0;
    while i < n
        invariant
            i <= n,
            n == world.bodies@.len(),
            n == old(world).bodies@.len(),
            forall|j: int|
                0 <= j < i ==> (#[trigger] world.bodies@[j])@ == old(
                    world,
                ).bodies@[j]@.vertices_updated(),
            forall|j: int| i <= j < n ==> (#[trigger] world.bodies@[j]) == old(world).bodies@[j],
        decreases n - i,
    {
        world.bodies[i].update_vertices();
        i += 1;
    }
    assert(world@ =~= vertices_pass(old(world)@));
}

/// Scans the world for the detector of the body at index `d`, which lies
/// at `origin`: returns every other body with a collider that is closer
/// than `range`, in the order of the bodies.
pub fn scan(world: &World, d: usize, origin: Vec2, range: i64) -> (found: Vec<u64>)
    ensures
        found@ == candidates(world@, d as int, origin, range, world@.len()),
{
    let n: usize = world.bodies.len();
    let mut found: Vec<u64> = Vec::new();
    let mut j: usize = 0;
    while j < n
        invariant
            j <= n,
            n == world.bodies@.len(),
            found@ == candidates(world@, d as int, origin, range, j as nat),
        decreases n - j,
    {
        let target: &Body = &world.bodies[j];
        assert(world@[j as int] == target@);
        if j != d && target.collider.is_some() && origin.within(target.position, range) {
            found.push(target.entity);
        }
        j += 1;
    }
    found
}

/// The broad phase: every detector gains, in the order of the bodies, each
/// other body with a collider whose origin is closer to its own than its
/// range.
pub fn detect_collision_target(world: &mut World)
    ensures
        final(world)@ == broad_phase(old(world)@),
{
    let n: usize = world.bodies.len();
    let mut i: usize = 0;
    while i < n
        invariant
            i <= n,
            n == world.bodies@.len(),
            n == old(world).bodies@.len(),
            forall|j: int|
                0 <= j < i ==> (#[trigger] world.bodies@[j])@ == scanned(old(world)@, j),
            forall|j: int| i <= j < n ==> (#[trigger] world.bodies@[j]) == old(world).bodies@[j],
            forall|j: int|
                0 <= j < n ==> is_target((#[trigger] world.bodies@[j])@) == is_target(
                    old(world)@[j],
                ) && world.bodies@[j].position == old(world)@[j].position
                    && world.bodies@[j].entity == old(world)@[j].entity,
        decreases n - i,
    {
        let range: Option<i64> = match &world.bodies[i].collision_detector {
            Some(detector) => Some(detector.range),
            None => None,
        };
        if let Some(range) = range {
            let origin: Vec2 = world.bodies[i].position;
            let mut found: Vec<u64> = scan(world, i, origin, range);
            proof {
                lemma_candidates_depend(world@, old(world)@, i as int, origin, range, n as nat);
            }
            world.bodies[i].add_targets(&mut found);
        }
        i += 1;
    }
    assert(world@ =~= broad_phase(old(world)@));
}

/// The candidates depend only on which bodies have a collider, where they
/// are, and what they are called.
pub proof fn lemma_candidates_depend(
    a: Seq<BodyView>,
    b: Seq<BodyView>,
    d: int,
    origin: Vec2,
    range: i64,
    n: nat,
)
    requires
        n <= a.len(),
        n <= b.len(),
        forall|j: int|
            0 <= j < n ==> is_target(#[trigger] a[j]) == is_target(b[j]) && a[j].position
                == b[j].position && a[j].entity == b[j].entity,
    ensures
        candidates(a, d, origin, range, n) == candidates(b, d, origin, range, n),
    decreases n,
{
    if n > 0 {
        lemma_candidates_depend(a, b, d, origin, range, (n - 1) as nat);
        assert(is_target(a[n - 1]) == is_target(b[n - 1]));
    }
}

} // verus!
