//! Resolution: bodies that overlap a static box are moved out of it and
//! brought to rest.

use vstd::prelude::*;
use crate::physics::body::{BodyView, World};
use crate::physics::collision::Collision;

verus! {

/// Whether a body is an immovable boundary: a collider marked static.
pub open spec fn is_static(body: BodyView) -> bool {
    body.collider is Some && body.static_body is Some
}

/// Whether resolution may move a body: it has a linear velocity and a
/// collider, and is not static.
pub open spec fn is_movable(body: BodyView) -> bool {
    body.linear_velocity is Some && body.collider is Some && body.static_body is None
}

/// The index of the first movable body called `entity` at or after `start`.
pub open spec fn find_movable_from(bodies: Seq<BodyView>, entity: u64, start: nat) -> Option<int>
    decreases bodies.len() - start,
{
    if start >= bodies.len() {
        None
    } else if is_movable(bodies[start as int]) && bodies[start as int].entity == entity {
        Some(start as int)
    } else {
        find_movable_from(bodies, entity, start + 1)
    }
}

/// The index of the first movable body called `entity`, if there is one.
pub open spec fn find_movable(bodies: Seq<BodyView>, entity: u64) -> Option<int> {
    find_movable_from(bodies, entity, 0)
}

/// The world after one collision on a static body's record has been
/// resolved. A record whose partner is not in the world, or is not movable,
/// is passed over.
pub open spec fn resolve_one(bodies: Seq<BodyView>, collision: Collision) -> Seq<BodyView> {
    match find_movable(bodies, collision.entity) {
        Some(p) => bodies.update(p, bodies[p].pushed(collision.offset)),
        None => bodies,
    }
}

/// The world after the first `k` collisions on the record of the static
/// body at index `s` have been resolved, in order.
pub open spec fn resolve_body(bodies: Seq<BodyView>, s: int, k: nat) -> Seq<BodyView>
    decreases k,
{
    if k == 0 {
        bodies
    } else {
        resolve_one(resolve_body(bodies, s, (k - 1) as nat), bodies[s].collider->0.collisions[k - 1])
    }
}

/// The world after the records of the static bodies among the first `n`
/// bodies have been resolved, in order.
pub open spec fn resolve_all(bodies: Seq<BodyView>, n: nat) -> Seq<BodyView>
    decreases n,
{
    if n == 0 {
        bodies
    } else {
        let before = resolve_all(bodies, (n - 1) as nat);
        if is_static(before[n - 1]) {
            resolve_body(before, n - 1, before[n - 1].spec_collision_count())
        } else {
            before
        }
    }
}

/// Two bodies that differ at most in position and linear motion, have
/// linear motion or lack it alike, and are equal where they are not movable.
pub open spec fn same_but_motion(a: BodyView, b: BodyView) -> bool {
    &&& b == (BodyView { position: b.position, linear_velocity: b.linear_velocity, ..a })
    &&& a.linear_velocity is Some <==> b.linear_velocity is Some
    &&& !is_movable(a) ==> a == b
}

/// Two worlds whose bodies differ at most in the position and linear motion
/// of movable bodies.
pub open spec fn same_but_motions(a: Seq<BodyView>, b: Seq<BodyView>) -> bool {
    &&& a.len() == b.len()
    &&& forall|i: int| 0 <= i < a.len() ==> same_but_motion(#[trigger] a[i], b[i])
}

/// A body that is found is movable, has that name, and is the first such.
pub proof fn lemma_find_movable_from(bodies: Seq<BodyView>, entity: u64, start: nat)
    ensures
        match find_movable_from(bodies, entity, start) {
            Some(p) => {
                &&& start <= p < bodies.len()
                &&& is_movable(bodies[p])
                &&& bodies[p].entity == entity
                &&& forall|j: int|
                    start <= j < p ==> !(is_movable(#[trigger] bodies[j]) && bodies[j].entity
                        == entity)
            },
            None => forall|j: int|
                start <= j < bodies.len() ==> !(is_movable(#[trigger] bodies[j])
                    && bodies[j].entity == entity),
        },
    decreases bodies.len() - start,
{
    if start < bodies.len() {
        lemma_find_movable_from(bodies, entity, start + 1);
    }
}

/// Resolving one collision changes nothing but the position and linear
/// motion of a movable body.
pub proof fn lemma_resolve_one_frame(bodies: Seq<BodyView>, collision: Collision)
    ensures
        same_but_motions(bodies, resolve_one(bodies, collision)),
{
    lemma_find_movable_from(bodies, collision.entity, 0);
}

/// Resolving the record of one static body changes nothing but the
/// positions and linear motions of movable bodies.
pub proof fn lemma_resolve_body_frame(bodies: Seq<BodyView>, s: int, k: nat)
    ensures
        same_but_motions(bodies, resolve_body(bodies, s, k)),
    decreases k,
{
    if k > 0 {
        lemma_resolve_body_frame(bodies, s, (k - 1) as nat);
        let before = resolve_body(bodies, s, (k - 1) as nat);
        let collision = bodies[s].collider->0.collisions[k - 1];
        lemma_resolve_one_frame(before, collision);
        let after = resolve_one(before, collision);
        assert forall|i: int| 0 <= i < bodies.len() implies same_but_motion(
            #[trigger] bodies[i],
            after[i],
        ) by {
            assert(same_but_motion(bodies[i], before[i]));
            assert(same_but_motion(before[i], after[i]));
        }
    }
}

/// Resolution changes nothing but the positions and linear motions of
/// movable bodies; in particular no static body is ever moved.
pub proof fn lemma_resolve_all_frame(bodies: Seq<BodyView>, n: nat)
    requires
        n <= bodies.len(),
    ensures
        same_but_motions(bodies, resolve_all(bodies, n)),
    decreases n,
{
    if n > 0 {
        lemma_resolve_all_frame(bodies, (n - 1) as nat);
        let before = resolve_all(bodies, (n - 1) as nat);
        if is_static(before[n - 1]) {
            let k = before[n - 1].spec_collision_count();
            lemma_resolve_body_frame(before, n - 1, k);
            let after = resolve_body(before, n - 1, k);
            assert forall|i: int| 0 <= i < bodies.len() implies same_but_motion(
                #[trigger] bodies[i],
                after[i],
            ) by {
                assert(same_but_motion(bodies[i], before[i]));
                assert(same_but_motion(before[i], after[i]));
            }
        }
    }
}

/// Finds the first movable body called `entity`.
pub fn locate_movable(world: &World, entity: u64) -> (r: Option<usize>)
    ensures
        match r {
            Some(p) => find_movable(world@, entity) == Some(p as int) && p < world@.len(),
            None => find_movable(world@, entity) is None,
        },
{
    let n: usize = world.bodies.len();
    let mut i: usize = 0;
    while i < n
        invariant
            i <= n,
            n == world.bodies@.len(),
            find_movable(world@, entity) == find_movable_from(world@, entity, i as nat),
        decreases n - i,
    {
        let body = &world.bodies[i];
        assert(world@[i as int] == body@);
        if body.linear_velocity.is_some() && body.collider.is_some() && body.static_body.is_none()
            && body.entity == entity {
            return Some(i);
        }
        i += 1;
    }
    None
}

/// Resolves one collision from a static body's record: the partner, if it
/// is in the world and movable, is moved out along one axis and brought to
/// rest.
pub fn resolve_collision(world: &mut World, collision: Collision)
    ensures
        final(world)@ == resolve_one(old(world)@, collision),
{
    let found: Option<usize> = locate_movable(world, collision.entity);
    if let Some(p) = found {
        assert(world@[p as int] == world.bodies@[p as int]@);
        world.bodies[p].push_out(collision.offset);
        assert(world@ =~= resolve_one(old(world)@, collision));
    }
}

/// Resolution against static bodies: for each collision on the record of a
/// static body, in order, the movable partner is moved out of the box along
/// the axis of the shorter penetration component, and its linear velocity
/// and pending force are set to zero. Static bodies never move.
pub fn handle_static_body_collisions(world: &mut World)
    ensures
        final(world)@ == resolve_all(old(world)@, old(world)@.len()),
{
    let n: usize = world.bodies.len();
    let mut s: usize = 0;
    while s < n
        invariant
            s <= n,
            n == world.bodies@.len(),
            n == old(world)@.len(),
            world@ == resolve_all(old(world)@, s as nat),
        decreases n - s,
    {
        assert(world@[s as int] == world.bodies@[s as int]@);
        if world.bodies[s].collider.is_some() && world.bodies[s].static_body.is_some() {
            let ghost start = world@;
            let m: usize = world.bodies[s].collision_count();
            let mut k: usize = 0;
            while k < m
                invariant
                    k <= m,
                    s < n,
                    n == world.bodies@.len(),
                    n == start.len(),
                    is_static(start[s as int]),
                    m == start[s as int].spec_collision_count(),
                    world@ == resolve_body(start, s as int, k as nat),
                decreases m - k,
            {
                proof {
                    lemma_resolve_body_frame(start, s as int, k as nat);
                    assert(same_but_motion(start[s as int], world@[s as int]));
                    assert(world@[s as int] == world.bodies@[s as int]@);
                }
                let collision: Option<Collision> = world.bodies[s].collision_at(k);
                if let Some(collision) = collision {
                    proof {
                        lemma_resolve_one_frame(world@, collision);
                    }
                    resolve_collision(world, collision);
                }
                k += 1;
            }
        }
        s += 1;
    }
}

} // verus!
