//! Axis-aligned boxes, the overlap test between two of them, and the
//! per-body records of a tick's collision phase.

use vstd::prelude::*;
use crate::fixed::{sat_neg, sat_sub, trunc_div};
use crate::fixed::{minus, negate};
use crate::vec2::Vec2;

verus! {

/// One overlap found in the narrow phase: the other body and the
/// penetration vector.
#[derive(Clone, Copy, Debug, PartialEq, Eq, Structural)]
pub struct Collision {
    pub entity: u64,
    pub offset: Vec2,
}

/// An axis-aligned box. `size` holds its corners relative to the body's
/// origin and `vertices` its corners in world space; in both pairs the
/// first is the corner with the largest coordinates, the second the one
/// with the smallest.
#[derive(Debug)]
pub struct Collider {
    pub size: (Vec2, Vec2),
    pub collisions: Vec<Collision>,
    pub vertices: (Vec2, Vec2),
}

/// The mathematical value of a [`Collider`].
pub struct ColliderView {
    pub size: (Vec2, Vec2),
    pub collisions: Seq<Collision>,
    pub vertices: (Vec2, Vec2),
}

/// The broad-phase scanner of a body: its radius and the candidates found.
#[derive(Debug)]
pub struct CollisionDetector {
    pub range: i64,
    pub possible_targets: Vec<u64>,
}

/// The mathematical value of a [`CollisionDetector`].
pub struct CollisionDetectorView {
    pub range: i64,
    pub possible_targets: Seq<u64>,
}

/// Marks a body that resolution never moves.
#[derive(Clone, Copy, Debug, PartialEq, Eq, Structural)]
pub struct StaticBody;

impl View for Collider {
    type V = ColliderView;

    open spec fn view(&self) -> ColliderView {
        ColliderView { size: self.size, collisions: self.collisions@, vertices: self.vertices }
    }
}

impl View for CollisionDetector {
    type V = CollisionDetectorView;

    open spec fn view(&self) -> CollisionDetectorView {
        CollisionDetectorView { range: self.range, possible_targets: self.possible_targets@ }
    }
}

/// Whether two boxes overlap on both axes. Boxes that only touch do not.
pub open spec fn overlaps(a: (Vec2, Vec2), b: (Vec2, Vec2)) -> bool {
    &&& a.0.x > b.1.x
    &&& a.1.x < b.0.x
    &&& a.0.y > b.1.y
    &&& a.1.y < b.0.y
}

/// On one axis, the shorter of the two signed moves that bring the first
/// interval out of the second: down to the second's lower end, or up to its
/// upper end. Where both are equally long, the move up.
pub open spec fn push_out(a_max: i64, a_min: i64, b_max: i64, b_min: i64) -> i64 {
    if a_max - b_min < b_max - a_min {
        sat_sub(b_min, a_max)
    } else {
        sat_sub(b_max, a_min)
    }
}

/// The penetration vector of box `a` in box `b`, if they overlap.
pub open spec fn penetration(a: (Vec2, Vec2), b: (Vec2, Vec2)) -> Option<Vec2> {
    if overlaps(a, b) {
        Some(
            Vec2 {
                x: push_out(a.0.x, a.1.x, b.0.x, b.1.x),
                y: push_out(a.0.y, a.1.y, b.0.y, b.1.y),
            },
        )
    } else {
        None
    }
}

/// The corners of a box with local corners `size` on a body at `origin`.
pub open spec fn placed(size: (Vec2, Vec2), origin: Vec2) -> (Vec2, Vec2) {
    (origin.spec_plus(size.0), origin.spec_plus(size.1))
}

/// The local corners of a square with sides of length `size`, centred on
/// the origin. Half the side is rounded toward zero.
pub open spec fn square_corners(size: i64) -> (Vec2, Vec2) {
    let half = trunc_div(size as int, 2) as i64;
    (Vec2 { x: half, y: half }, Vec2 { x: sat_neg(half), y: sat_neg(half) })
}

impl Collision {
    pub fn new(entity: u64, offset: Vec2) -> (r: Collision)
        ensures
            r == (Collision { entity, offset }),
    {
        Collision { entity, offset }
    }
}

impl ColliderView {
    /// The collider with one more collision on record.
    pub open spec fn recorded(self, collision: Collision) -> ColliderView {
        ColliderView { collisions: self.collisions.push(collision), ..self }
    }

    /// The collider with no collision on record.
    pub open spec fn flushed(self) -> ColliderView {
        ColliderView { collisions: Seq::empty(), ..self }
    }

    /// The collider with its world corners recomputed for `origin`.
    pub open spec fn moved_to(self, origin: Vec2) -> ColliderView {
        ColliderView { vertices: placed(self.size, origin), ..self }
    }
}

impl CollisionDetectorView {
    /// The detector with one more candidate.
    pub open spec fn with_target(self, entity: u64) -> CollisionDetectorView {
        CollisionDetectorView { possible_targets: self.possible_targets.push(entity), ..self }
    }

    /// The detector with no candidate.
    pub open spec fn flushed(self) -> CollisionDetectorView {
        CollisionDetectorView { possible_targets: Seq::empty(), ..self }
    }
}

impl Collider {
    /// A collider with the given local corners. Until the first recompute
    /// its world corners are the local ones.
    pub fn new(size: (Vec2, Vec2)) -> (r: Collider)
        ensures
            r@ == (ColliderView { size, collisions: Seq::empty(), vertices: size }),
    {
        Collider { size, collisions: Vec::new(), vertices: size }
    }

    /// A square collider with sides of length `size`, centred on the body.
    pub fn square(size: i64) -> (r: Collider)
        ensures
            r@ == (ColliderView {
                size: square_corners(size),
                collisions: Seq::empty(),
                vertices: square_corners(size),
            }),
    {
        let half: i64 = if size >= 0 {
            size / 2
        } else {
            negate(((-(size as i128)) / 2) as i64)
        };
        Collider::new((Vec2::splat(half), Vec2::splat(negate(half))))
    }

    /// Puts a collision on record.
    pub fn collide(&mut self, collision: Collision)
        ensures
            final(self)@ == old(self)@.recorded(collision),
    {
        self.collisions.push(collision);
    }

    /// Forgets the collisions on record.
    pub fn flush(&mut self)
        ensures
            final(self)@ == old(self)@.flushed(),
    {
        self.collisions.clear();
    }

    /// Recomputes the world corners for a body at `origin`. The box is
    /// shifted, never rotated.
    pub fn update_vertices(&mut self, origin: Vec2)
        ensures
            final(self)@ == old(self)@.moved_to(origin),
    {
        self.vertices = (origin.plus(self.size.0), origin.plus(self.size.1));
    }
}

impl CollisionDetector {
    /// A detector of the given radius with no candidate.
    pub fn new(range: i64) -> (r: CollisionDetector)
        ensures
            r@ == (CollisionDetectorView { range, possible_targets: Seq::empty() }),
    {
        CollisionDetector { range, possible_targets: Vec::new() }
    }

    /// Adds a candidate for the narrow phase.
    pub fn add_possible_target(&mut self, target_entity: u64)
        ensures
            final(self)@ == old(self)@.with_target(target_entity),
    {
        self.possible_targets.push(target_entity);
    }

    /// Forgets the candidates.
    pub fn flush(&mut self)
        ensures
            final(self)@ == old(self)@.flushed(),
    {
        self.possible_targets.clear();
    }
}

/// Computes the shorter of the two moves that separate two intervals.
pub fn push(a_max: i64, a_min: i64, b_max: i64, b_min: i64) -> (r: i64)
    ensures
        r == push_out(a_max, a_min, b_max, b_min),
{
    if (a_max as i128) - (b_min as i128) < (b_max as i128) - (a_min as i128) {
        minus(b_min, a_max)
    } else {
        minus(b_max, a_min)
    }
}

/// The narrow-phase test: the penetration vector of box `a` in box `b`
/// where they overlap on both axes, nothing where they do not.
pub fn calc_collision(a: (Vec2, Vec2), b: (Vec2, Vec2)) -> (r: Option<Vec2>)
    ensures
        r == penetration(a, b),
        r is Some <==> overlaps(a, b),
{
    if (a.0.x > b.1.x) && (a.1.x < b.0.x) && (a.0.y > b.1.y) && (a.1.y < b.0.y) {
        let delta_x: i64 = push(a.0.x, a.1.x, b.0.x, b.1.x);
        let delta_y: i64 = push(a.0.y, a.1.y, b.0.y, b.1.y);
        return Some(Vec2::new(delta_x, delta_y));
    }
    None
}

} // verus!
