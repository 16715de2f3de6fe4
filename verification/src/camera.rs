//! Keeping the player inside the margins of the view.

use vstd::prelude::*;
use crate::fixed::{sat_add, sat_mul, sat_sub};
use crate::fixed::{minus, plus, times};
use crate::physics::movement::LinearVelocity;
use crate::vec2::Vec2;

verus! {

/// The narrowest margin, in raw units: a hundred units.
pub const MIN_MARGIN: i64 = 100_000;

/// The margin as a share of the view's extent: thirty-five hundredths.
pub const PERCENT_MARGIN: i64 = 350;

/// The factor from the distance beyond the margin to the camera's speed.
pub const FOLLOW_GAIN: i64 = 3000;

/// The margin of a view that is `extent` wide or high.
pub open spec fn margin(extent: i64) -> i64 {
    let share = sat_mul(extent, PERCENT_MARGIN);
    if MIN_MARGIN >= share {
        MIN_MARGIN
    } else {
        share
    }
}

/// How far a coordinate lies beyond the far margin of the view; zero
/// inside it.
pub open spec fn beyond_far(p: i64, extent: i64) -> i64 {
    if p > sat_sub(extent, margin(extent)) {
        sat_add(sat_sub(p, extent), margin(extent))
    } else {
        0
    }
}

/// How far a coordinate lies before the near margin of the view, as a
/// negative number; zero inside it.
pub open spec fn before_near(p: i64, extent: i64) -> i64 {
    if p < margin(extent) {
        sat_sub(p, margin(extent))
    } else {
        0
    }
}

/// The velocity that brings the player back inside the margins, for a view
/// of the given size and the player's position in it. Across, the camera
/// goes the way the player left; the view's second axis points down, the
/// world's up, so there the sign is turned.
pub open spec fn follow_velocity(width: i64, height: i64, player: Vec2) -> Vec2 {
    let force = Vec2 {
        x: sat_add(sat_add(0, beyond_far(player.x, width)), before_near(player.x, width)),
        y: sat_sub(sat_sub(0, before_near(player.y, height)), beyond_far(player.y, height)),
    };
    force.spec_scaled(FOLLOW_GAIN)
}

/// Computes the margin of a view that is `extent` wide or high.
pub fn margin_of(extent: i64) -> (r: i64)
    ensures
        r == margin(extent),
{
    let share: i64 = times(extent, PERCENT_MARGIN);
    if MIN_MARGIN >= share {
        MIN_MARGIN
    } else {
        share
    }
}

/// Sets the camera's velocity so that it follows a player who has left the
/// margins of the view. `width` and `height` give the size of the view and
/// `player_viewport_position` the player's place in it. The pending force
/// stays as it is.
pub fn control_camera_movement(
    velocity: &mut LinearVelocity,
    width: i64,
    height: i64,
    player_viewport_position: Vec2,
)
    ensures
        *final(velocity) == (LinearVelocity {
            value: follow_velocity(width, height, player_viewport_position),
            force: old(velocity).force,
        }),
{
    let margin_x: i64 = margin_of(width);
    let margin_y: i64 = margin_of(height);
    let mut force: Vec2 = Vec2::zero();
    if player_viewport_position.x > minus(width, margin_x) {
        force.x = plus(force.x, plus(minus(player_viewport_position.x, width), margin_x));
    }
    if player_viewport_position.x < margin_x {
        force.x = plus(force.x, minus(player_viewport_position.x, margin_x));
    }
    if player_viewport_position.y < margin_y {
        force.y = minus(force.y, minus(player_viewport_position.y, margin_y));
    }
    if player_viewport_position.y > minus(height, margin_y) {
        force.y = minus(force.y, plus(minus(player_viewport_position.y, height), margin_y));
    }
    velocity.set(force.scaled(FOLLOW_GAIN));
}

} // verus!
