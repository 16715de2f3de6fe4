//! The player: how it is put together, and how input becomes force.

use vstd::prelude::*;
use crate::physics::body::{Body, BodyView, World};
use crate::physics::collision::{square_corners, Collider, ColliderView};
use crate::physics::collision::{CollisionDetector, CollisionDetectorView, StaticBody};
use crate::physics::movement::{clamp_length, clamped};
use crate::physics::movement::{LinearForceFactor, LinearFriction, LinearMaxVelocity};
use crate::physics::movement::LinearVelocity;
use crate::vec2::Vec2;

verus! {

/// The size of the force that the controls apply, in raw units.
pub const INPUT_FORCE: i64 = 300_000;

/// The side of the player's and the boundary's box, in raw units.
pub const BOX_SIZE: i64 = 50_000;

/// The player's top speed, its friction on each axis, and the range of its
/// detector, in raw units.
pub const PLAYER_LIMIT: i64 = 500_000;

/// The player's force factors across and along.
pub const PLAYER_FACTOR_X: i64 = 5000;

pub const PLAYER_FACTOR_Y: i64 = 15_000;

/// The pull of a pair of opposite controls along their axis.
pub open spec fn axis(positive: bool, negative: bool) -> i64 {
    if positive == negative {
        0
    } else if positive {
        INPUT_FORCE
    } else {
        (-INPUT_FORCE) as i64
    }
}

/// The force of the pressed controls: of size `INPUT_FORCE` along one axis,
/// and shortened to that length where two axes are pressed at once.
pub open spec fn input_force(up: bool, down: bool, right: bool, left: bool) -> Vec2 {
    clamped(Vec2 { x: axis(right, left), y: axis(up, down) }, INPUT_FORCE)
}

/// The player as it enters the world.
pub open spec fn player_view(entity: u64) -> BodyView {
    BodyView {
        entity,
        position: Vec2::spec_zero(),
        rotation: 0,
        linear_velocity: Some(LinearVelocity::spec_zero()),
        linear_max_velocity: Some(LinearMaxVelocity { value: PLAYER_LIMIT }),
        linear_force_factor: Some(
            LinearForceFactor {
                positive: Vec2 { x: PLAYER_FACTOR_X, y: PLAYER_FACTOR_Y },
                negative: Vec2 { x: PLAYER_FACTOR_X, y: PLAYER_FACTOR_Y },
            },
        ),
        linear_friction: Some(LinearFriction { value: Vec2 { x: PLAYER_LIMIT, y: PLAYER_LIMIT } }),
        angular_velocity: None,
        angular_max_velocity: None,
        angular_force_factor: None,
        angular_friction: None,
        collider: Some(
            ColliderView {
                size: square_corners(BOX_SIZE),
                collisions: Seq::empty(),
                vertices: square_corners(BOX_SIZE),
            },
        ),
        collision_detector: Some(
            CollisionDetectorView { range: PLAYER_LIMIT, possible_targets: Seq::empty() },
        ),
        static_body: None,
    }
}

/// The boundary box as it enters the world.
pub open spec fn boundary_view(entity: u64) -> BodyView {
    BodyView {
        entity,
        position: Vec2::spec_zero(),
        rotation: 0,
        linear_velocity: None,
        linear_max_velocity: None,
        linear_force_factor: None,
        linear_friction: None,
        angular_velocity: None,
        angular_max_velocity: None,
        angular_force_factor: None,
        angular_friction: None,
        collider: Some(
            ColliderView {
                size: square_corners(BOX_SIZE),
                collisions: Seq::empty(),
                vertices: square_corners(BOX_SIZE),
            },
        ),
        collision_detector: None,
        static_body: Some(StaticBody),
    }
}

/// Computes the pull of a pair of opposite controls.
pub fn axis_of(positive: bool, negative: bool) -> (r: i64)
    ensures
        r == axis(positive, negative),
{
    if positive == negative {
        0
    } else if positive {
        INPUT_FORCE
    } else {
        -INPUT_FORCE
    }
}

/// Adds the force of the pressed controls to the player's pending force.
pub fn control_player_movement(
    velocity: &mut LinearVelocity,
    up: bool,
    down: bool,
    right: bool,
    left: bool,
)
    ensures
        *final(velocity) == old(velocity).spec_apply_force(input_force(up, down, right, left)),
{
    let direction: Vec2 = Vec2 { x: axis_of(right, left), y: axis_of(up, down) };
    velocity.apply_force(clamp_length(direction, INPUT_FORCE));
}

/// Puts the player and one static boundary box into the world, both at the
/// origin, under the given names.
pub fn spawn_player(world: &mut World, player: u64, boundary: u64)
    ensures
        final(world)@ == old(world)@.push(player_view(player)).push(boundary_view(boundary)),
{
    let mut body: Body = Body::new(player, Vec2::zero());
    body.linear_velocity = Some(LinearVelocity::zero());
    body.linear_max_velocity = Some(LinearMaxVelocity::new(PLAYER_LIMIT));
    body.linear_force_factor = Some(
        LinearForceFactor::splat(Vec2::new(PLAYER_FACTOR_X, PLAYER_FACTOR_Y)),
    );
    body.linear_friction = Some(LinearFriction::new(Vec2::splat(PLAYER_LIMIT)));
    body.collider = Some(Collider::square(BOX_SIZE));
    body.collision_detector = Some(CollisionDetector::new(PLAYER_LIMIT));
    world.spawn(body);
    let mut wall: Body = Body::new(boundary, Vec2::zero());
    wall.collider = Some(Collider::square(BOX_SIZE));
    wall.static_body = Some(StaticBody);
    world.spawn(wall);
}

} // verus!
