//! The narrow phase: the exact overlap test between each detector and each
//! of its candidates, recorded on both sides.

use vstd::prelude::*;
use crate::physics::body::{BodyView, World};
use crate::physics::collision::{calc_collision, penetration, Collision};
use crate::physics::detection::is_target;
use crate::vec2::Vec2;

verus! {

/// Whether a body takes the detector's side in the narrow phase: it has a
/// collider and a detector.
pub open spec fn is_detector(body: BodyView) -> bool {
    body.collider is Some && body.collision_detector is Some
}

/// Whether the body at index `j` answers to the name `entity` for the
/// detector at index `d`: it is another body, it has a collider, and it is
/// called `entity`.
pub open spec fn answers(bodies: Seq<BodyView>, d: int, entity: u64, j: int) -> bool {
    j != d && is_target(bodies[j]) && bodies[j].entity == entity
}

/// The index of the first body at or after `start` that answers to
/// `entity` for the detector at index `d`.
pub open spec fn find_target_from(
    bodies: Seq<BodyView>,
    d: int,
    entity: u64,
    start: nat,
) -> Option<int>
    decreases bodies.len() - start,
{
    if start >= bodies.len() {
        None
    } else if answers(bodies, d, entity, start as int) {
        Some(start as int)
    } else {
        find_target_from(bodies, d, entity, start + 1)
    }
}

/// The index of the first body other than the one at `d` that has a
/// collider and is called `entity`, if there is one.
pub open spec fn find_target(bodies: Seq<BodyView>, d: int, entity: u64) -> Option<int> {
    find_target_from(bodies, d, entity, 0)
}

/// The world after the body at index `d` has been tested against the
/// candidate called `entity`; nothing happens unless the body is a
/// detector. Where the candidate is found and the two boxes
/// overlap, both bodies get a record that names the other and carries the
/// penetration of the detector's box in the target's; the vector is the same
/// on both sides. A candidate that is not in the world is passed over.
pub open spec fn narrow_pair(bodies: Seq<BodyView>, d: int, entity: u64) -> Seq<BodyView> {
    if 0 <= d < bodies.len() && is_detector(bodies[d]) {
        match find_target(bodies, d, entity) {
            Some(t) => match penetration(
                bodies[d].collider->0.vertices,
                bodies[t].collider->0.vertices,
            ) {
                Some(offset) => bodies.update(
                    d,
                    bodies[d].recorded(Collision { entity, offset }),
                ).update(t, bodies[t].recorded(Collision { entity: bodies[d].entity, offset })),
                None => bodies,
            },
            None => bodies,
        }
    } else {
        bodies
    }
}

/// The world after the detector at index `d` has been tested against its
/// first `k` candidates, in order.
pub open spec fn narrow_body(bodies: Seq<BodyView>, d: int, k: nat) -> Seq<BodyView>
    decreases k,
{
    if k == 0 {
        bodies
    } else {
        narrow_pair(
            narrow_body(bodies, d, (k - 1) as nat),
            d,
            bodies[d].collision_detector->0.possible_targets[k - 1],
        )
    }
}

/// The world after the detectors among the first `n` bodies have been
/// tested against all their candidates, in order.
pub open spec fn narrow_phase(bodies: Seq<BodyView>, n: nat) -> Seq<BodyView>
    decreases n,
{
    if n == 0 {
        bodies
    } else {
        let before = narrow_phase(bodies, (n - 1) as nat);
        if is_detector(before[n - 1]) {
            narrow_body(before, n - 1, before[n - 1].spec_target_count())
        } else {
            before
        }
    }
}

/// Two bodies that differ at most in the collisions on record.
pub open spec fn same_but_collisions(a: BodyView, b: BodyView) -> bool {
    match (a.collider, b.collider) {
        (Some(ca), Some(cb)) => b == (BodyView {
            collider: Some(
                crate::physics::collision::ColliderView { collisions: cb.collisions, ..ca },
            ),
            ..a
        }),
        (None, None) => a == b,
        _ => false,
    }
}

/// Two worlds whose bodies differ at most in the collisions on record.
pub open spec fn same_but_records(a: Seq<BodyView>, b: Seq<BodyView>) -> bool {
    &&& a.len() == b.len()
    &&& forall|i: int| 0 <= i < a.len() ==> same_but_collisions(#[trigger] a[i], b[i])
}

/// A body that is found answers to the name, and is the first that does.
pub proof fn lemma_find_target_from(bodies: Seq<BodyView>, d: int, entity: u64, start: nat)
    ensures
        match find_target_from(bodies, d, entity, start) {
            Some(t) => {
                &&& start <= t < bodies.len()
                &&& answers(bodies, d, entity, t)
                &&& forall|j: int| start <= j < t ==> !#[trigger] answers(bodies, d, entity, j)
            },
            None => forall|j: int|
                start <= j < bodies.len() ==> !#[trigger] answers(bodies, d, entity, j),
        },
    decreases bodies.len() - start,
{
    if start < bodies.len() {
        lemma_find_target_from(bodies, d, entity, start + 1);
    }
}

/// One test changes nothing but the collisions on record.
pub proof fn lemma_narrow_pair_frame(bodies: Seq<BodyView>, d: int, entity: u64)
    ensures
        same_but_records(bodies, narrow_pair(bodies, d, entity)),
{
    lemma_find_target_from(bodies, d, entity, 0);
}

/// The tests of one detector change nothing but the collisions on record.
pub proof fn lemma_narrow_body_frame(bodies: Seq<BodyView>, d: int, k: nat)
    requires
        0 <= d < bodies.len(),
    ensures
        same_but_records(bodies, narrow_body(bodies, d, k)),
    decreases k,
{
    if k > 0 {
        lemma_narrow_body_frame(bodies, d, (k - 1) as nat);
        let before = narrow_body(bodies, d, (k - 1) as nat);
        let entity = bodies[d].collision_detector->0.possible_targets[k - 1];
        lemma_narrow_pair_frame(before, d, entity);
        let after = narrow_pair(before, d, entity);
        assert forall|i: int| 0 <= i < bodies.len() implies same_but_collisions(
            #[trigger] bodies[i],
            after[i],
        ) by {
            assert(same_but_collisions(bodies[i], before[i]));
            assert(same_but_collisions(before[i], after[i]));
        }
    }
}

/// The narrow phase changes nothing but the collisions on record.
pub proof fn lemma_narrow_phase_frame(bodies: Seq<BodyView>, n: nat)
    requires
        n <= bodies.len(),
    ensures
        same_but_records(bodies, narrow_phase(bodies, n)),
    decreases n,
{
    if n > 0 {
        lemma_narrow_phase_frame(bodies, (n - 1) as nat);
        let before = narrow_phase(bodies, (n - 1) as nat);
        if is_detector(before[n - 1]) {
            let k = before[n - 1].spec_target_count();
            lemma_narrow_body_frame(before, n - 1, k);
            let after = narrow_body(before, n - 1, k);
            assert forall|i: int| 0 <= i < bodies.len() implies same_but_collisions(
                #[trigger] bodies[i],
                after[i],
            ) by {
                assert(same_but_collisions(bodies[i], before[i]));
                assert(same_but_collisions(before[i], after[i]));
            }
        }
    }
}

/// Finds, for the detector at index `d`, the first other body that has a
/// collider and is called `entity`.
pub fn locate_target(world: &World, d: usize, entity: u64) -> (r: Option<usize>)
    ensures
        match r {
            Some(t) => find_target(world@, d as int, entity) == Some(t as int) && t < world@.len()
                && t != d,
            None => find_target(world@, d as int, entity) is None,
        },
{
    let n: usize = world.bodies.len();
    let mut i: usize = 0;
    while i < n
        invariant
            i <= n,
            n == world.bodies@.len(),
            find_target(world@, d as int, entity) == find_target_from(
                world@,
                d as int,
                entity,
                i as nat,
            ),
        decreases n - i,
    {
        let body = &world.bodies[i];
        assert(world@[i as int] == body@);
        if i != d && body.collider.is_some() && body.entity == entity {
            return Some(i);
        }
        i += 1;
    }
    None
}

/// Tests the body at index `d` against the candidate called `entity` and
/// records an overlap on both bodies. Nothing happens unless the body at
/// `d` has a collider and a detector.
pub fn detect_pair(world: &mut World, d: usize, entity: u64)
    ensures
        final(world)@ == narrow_pair(old(world)@, d as int, entity),
{
    if d >= world.bodies.len() {
        return ;
    }
    assert(world@[d as int] == world.bodies@[d as int]@);
    if world.bodies[d].collider.is_none() || world.bodies[d].collision_detector.is_none() {
        return ;
    }
    let found: Option<usize> = locate_target(world, d, entity);
    if let Some(t) = found {
        proof {
            lemma_find_target_from(world@, d as int, entity, 0);
        }
        let a: Option<(Vec2, Vec2)> = world.bodies[d].corners();
        let b: Option<(Vec2, Vec2)> = world.bodies[t].corners();
        assert(world@[d as int] == world.bodies@[d as int]@);
        assert(world@[t as int] == world.bodies@[t as int]@);
        if let (Some(a), Some(b)) = (a, b) {
            if let Some(offset) = calc_collision(a, b) {
                let detector_entity: u64 = world.bodies[d].entity;
                world.bodies[d].collide(Collision::new(entity, offset));
                world.bodies[t].collide(Collision::new(detector_entity, offset));
                assert(world@ =~= narrow_pair(old(world)@, d as int, entity));
            }
        }
    }
}

/// The narrow phase: every body with a collider and a detector is tested
/// against each of its candidates, in order. Where the boxes overlap, the
/// same penetration vector is recorded on both bodies.
pub fn detect_collision(world: &mut World)
    ensures
        final(world)@ == narrow_phase(old(world)@, old(world)@.len()),
{
    let n: usize = world.bodies.len();
    let mut d: usize = 0;
    while d < n
        invariant
            d <= n,
            n == world.bodies@.len(),
            n == old(world)@.len(),
            world@ == narrow_phase(old(world)@, d as nat),
        decreases n - d,
    {
        assert(world@[d as int] == world.bodies@[d as int]@);
        if world.bodies[d].collider.is_some() && world.bodies[d].collision_detector.is_some() {
            let ghost start = world@;
            let m: usize = world.bodies[d].target_count();
            let mut k: usize = 0;
            while k < m
                invariant
                    k <= m,
                    d < n,
                    n == world.bodies@.len(),
                    n == start.len(),
                    is_detector(start[d as int]),
                    m == start[d as int].spec_target_count(),
                    world@ == narrow_body(start, d as int, k as nat),
                decreases m - k,
            {
                proof {
                    lemma_narrow_body_frame(start, d as int, k as nat);
                    assert(same_but_collisions(start[d as int], world@[d as int]));
                    assert(world@[d as int] == world.bodies@[d as int]@);
                }
                let entity: Option<u64> = world.bodies[d].target_at(k);
                if let Some(entity) = entity {
                    proof {
                        lemma_narrow_pair_frame(world@, d as int, entity);
                    }
                    detect_pair(world, d, entity);
                }
                k += 1;
            }
        }
        d += 1;
    }
}

} // verus!
