//! A game object as a plain record, and the world as a list of them.
//!
//! Each optional part of a body switches one stage on: a body without that
//! part passes through the stage unchanged.

use vstd::prelude::*;
use crate::physics::collision::{Collider, ColliderView, Collision};
use crate::physics::collision::{CollisionDetector, CollisionDetectorView, StaticBody};
use crate::physics::movement::{AngularForceFactor, AngularFriction, AngularMaxVelocity};
use crate::physics::movement::{AngularVelocity, LinearForceFactor, LinearFriction};
use crate::physics::movement::{LinearMaxVelocity, LinearVelocity};
use crate::fixed::{abs_int, sat_add};
use crate::fixed::{plus, unsigned_magnitude};
use crate::vec2::Vec2;

verus! {

/// One game object: where it is, and the parts attached to it.
#[derive(Debug)]
pub struct Body {
    pub entity: u64,
    pub position: Vec2,
    pub rotation: i64,
    pub linear_velocity: Option<LinearVelocity>,
    pub linear_max_velocity: Option<LinearMaxVelocity>,
    pub linear_force_factor: Option<LinearForceFactor>,
    pub linear_friction: Option<LinearFriction>,
    pub angular_velocity: Option<AngularVelocity>,
    pub angular_max_velocity: Option<AngularMaxVelocity>,
    pub angular_force_factor: Option<AngularForceFactor>,
    pub angular_friction: Option<AngularFriction>,
    pub collider: Option<Collider>,
    pub collision_detector: Option<CollisionDetector>,
    pub static_body: Option<StaticBody>,
}

/// The mathematical value of a [`Body`].
pub struct BodyView {
    pub entity: u64,
    pub position: Vec2,
    pub rotation: i64,
    pub linear_velocity: Option<LinearVelocity>,
    pub linear_max_velocity: Option<LinearMaxVelocity>,
    pub linear_force_factor: Option<LinearForceFactor>,
    pub linear_friction: Option<LinearFriction>,
    pub angular_velocity: Option<AngularVelocity>,
    pub angular_max_velocity: Option<AngularMaxVelocity>,
    pub angular_force_factor: Option<AngularForceFactor>,
    pub angular_friction: Option<AngularFriction>,
    pub collider: Option<ColliderView>,
    pub collision_detector: Option<CollisionDetectorView>,
    pub static_body: Option<StaticBody>,
}

/// All the bodies of a simulation, in the order in which every stage
/// visits them.
#[derive(Debug)]
pub struct World {
    pub bodies: Vec<Body>,
}

impl View for Body {
    type V = BodyView;

    open spec fn view(&self) -> BodyView {
        BodyView {
            entity: self.entity,
            position: self.position,
            rotation: self.rotation,
            linear_velocity: self.linear_velocity,
            linear_max_velocity: self.linear_max_velocity,
            linear_force_factor: self.linear_force_factor,
            linear_friction: self.linear_friction,
            angular_velocity: self.angular_velocity,
            angular_max_velocity: self.angular_max_velocity,
            angular_force_factor: self.angular_force_factor,
            angular_friction: self.angular_friction,
            collider: match self.collider {
                Some(c) => Some(c@),
                None => None,
            },
            collision_detector: match self.collision_detector {
                Some(d) => Some(d@),
                None => None,
            },
            static_body: self.static_body,
        }
    }
}

impl View for World {
    type V = Seq<BodyView>;

    open spec fn view(&self) -> Seq<BodyView> {
        Seq::new(self.bodies@.len(), |i: int| self.bodies@[i]@)
    }
}

/// A position corrected by a penetration vector: moved by the component
/// that is smaller in magnitude, along that axis only.
pub open spec fn corrected(position: Vec2, offset: Vec2) -> Vec2 {
    if abs_int(offset.x as int) < abs_int(offset.y as int) {
        Vec2 { x: sat_add(position.x, offset.x), y: position.y }
    } else {
        Vec2 { x: position.x, y: sat_add(position.y, offset.y) }
    }
}

impl BodyView {
    /// The body after the linear friction stage.
    pub open spec fn linear_friction_applied(self) -> BodyView {
        match (self.linear_velocity, self.linear_friction) {
            (Some(v), Some(f)) => BodyView { linear_velocity: Some(v.with_friction(f)), ..self },
            _ => self,
        }
    }

    /// The body after the angular friction stage.
    pub open spec fn angular_friction_applied(self) -> BodyView {
        match (self.angular_velocity, self.angular_friction) {
            (Some(v), Some(f)) => BodyView { angular_velocity: Some(v.with_friction(f)), ..self },
            _ => self,
        }
    }

    /// The body after the linear force-scaling stage.
    pub open spec fn linear_force_factor_applied(self) -> BodyView {
        match (self.linear_velocity, self.linear_force_factor) {
            (Some(v), Some(f)) => BodyView {
                linear_velocity: Some(v.with_force_factor(f)),
                ..self
            },
            _ => self,
        }
    }

    /// The body after the angular force-scaling stage.
    pub open spec fn angular_force_factor_applied(self) -> BodyView {
        match (self.angular_velocity, self.angular_force_factor) {
            (Some(v), Some(f)) => BodyView {
                angular_velocity: Some(v.with_force_factor(f)),
                ..self
            },
            _ => self,
        }
    }

    /// The body after the linear velocity integration over a step of `dt` nanoseconds.
    pub open spec fn linear_velocity_applied(self, dt: i64) -> BodyView {
        match self.linear_velocity {
            Some(v) => BodyView { linear_velocity: Some(v.integrated(dt)), ..self },
            None => self,
        }
    }

    /// The body after the angular velocity integration over a step of `dt` nanoseconds.
    pub open spec fn angular_velocity_applied(self, dt: i64) -> BodyView {
        match self.angular_velocity {
            Some(v) => BodyView { angular_velocity: Some(v.integrated(dt)), ..self },
            None => self,
        }
    }

    /// The body after the linear speed-limit stage.
    pub open spec fn linear_max_velocity_applied(self) -> BodyView {
        match (self.linear_velocity, self.linear_max_velocity) {
            (Some(v), Some(m)) => BodyView {
                linear_velocity: Some(v.with_max_velocity(m)),
                ..self
            },
            _ => self,
        }
    }

    /// The body after the angular speed-limit stage.
    pub open spec fn angular_max_velocity_applied(self) -> BodyView {
        match (self.angular_velocity, self.angular_max_velocity) {
            (Some(v), Some(m)) => BodyView {
                angular_velocity: Some(v.with_max_velocity(m)),
                ..self
            },
            _ => self,
        }
    }

    /// The body after the position integration over a step of `dt` nanoseconds.
    pub open spec fn position_updated(self, dt: i64) -> BodyView {
        match self.linear_velocity {
            Some(v) => BodyView { position: v.spec_moved(self.position, dt), ..self },
            None => self,
        }
    }

    /// The body after the rotation integration over a step of `dt` nanoseconds.
    pub open spec fn rotation_updated(self, dt: i64) -> BodyView {
        match self.angular_velocity {
            Some(v) => BodyView { rotation: v.spec_turned(self.rotation, dt), ..self },
            None => self,
        }
    }

    /// The body with the collisions on record forgotten.
    pub open spec fn collider_flushed(self) -> BodyView {
        match self.collider {
            Some(c) => BodyView { collider: Some(c.flushed()), ..self },
            None => self,
        }
    }

    /// The body with the broad-phase candidates forgotten.
    pub open spec fn collision_detector_flushed(self) -> BodyView {
        match self.collision_detector {
            Some(d) => BodyView { collision_detector: Some(d.flushed()), ..self },
            None => self,
        }
    }

    /// The body with the world corners of its collider recomputed from its
    /// position.
    pub open spec fn vertices_updated(self) -> BodyView {
        match self.collider {
            Some(c) => BodyView { collider: Some(c.moved_to(self.position)), ..self },
            None => self,
        }
    }

    /// The body after resolution against a static box that it penetrates
    /// by `offset`: moved by the component of `offset` that is smaller in
    /// magnitude, along that axis only, by the second component where both
    /// are equally large; its linear velocity and pending force are zero.
    pub open spec fn pushed(self, offset: Vec2) -> BodyView {
        BodyView {
            position: corrected(self.position, offset),
            linear_velocity: match self.linear_velocity {
                Some(_) => Some(LinearVelocity::spec_zero()),
                None => None,
            },
            ..self
        }
    }

    /// The number of broad-phase candidates; none without a detector.
    pub open spec fn spec_target_count(self) -> nat {
        match self.collision_detector {
            Some(d) => d.possible_targets.len(),
            None => 0,
        }
    }

    /// The number of collisions on record; none without a collider.
    pub open spec fn spec_collision_count(self) -> nat {
        match self.collider {
            Some(c) => c.collisions.len(),
            None => 0,
        }
    }

    /// The world corners of the collider, if there is one.
    pub open spec fn spec_corners(self) -> Option<(Vec2, Vec2)> {
        match self.collider {
            Some(c) => Some(c.vertices),
            None => None,
        }
    }

    /// The body with one more collision on record, if it has a collider.
    pub open spec fn recorded(self, collision: Collision) -> BodyView {
        match self.collider {
            Some(c) => BodyView { collider: Some(c.recorded(collision)), ..self },
            None => self,
        }
    }

    /// The body with the given candidates added, if it has a detector.
    pub open spec fn with_targets(self, found: Seq<u64>) -> BodyView {
        match self.collision_detector {
            Some(d) => BodyView {
                collision_detector: Some(
                    CollisionDetectorView {
                        possible_targets: d.possible_targets + found,
                        ..d
                    },
                ),
                ..self
            },
            None => self,
        }
    }
}

impl Body {
    /// A body at `position` with no rotation and nothing attached.
    pub fn new(entity: u64, position: Vec2) -> (r: Body)
        ensures
            r@ == (BodyView {
                entity,
                position,
                rotation: 0,
                linear_velocity: None,
                linear_max_velocity: None,
                linear_force_factor: None,
                linear_friction: None,
                angular_velocity: None,
                angular_max_velocity: None,
                angular_force_factor: None,
                angular_friction: None,
                collider: None,
                collision_detector: None,
                static_body: None,
            }),
    {
        Body {
            entity,
            position,
            rotation: 0,
            linear_velocity: None,
            linear_max_velocity: None,
            linear_force_factor: None,
            linear_friction: None,
            angular_velocity: None,
            angular_max_velocity: None,
            angular_force_factor: None,
            angular_friction: None,
            collider: None,
            collision_detector: None,
            static_body: None,
        }
    }

    /// Applies linear friction, if the body has a linear velocity and a
    /// linear friction.
    pub fn apply_linear_friction(&mut self)
        ensures
            final(self)@ == old(self)@.linear_friction_applied(),
    {
        if let Some(friction) = self.linear_friction {
            if let Some(velocity) = &mut self.linear_velocity {
                velocity.apply_friction(&friction);
            }
        }
    }

    /// Applies angular friction, if the body has an angular velocity and an
    /// angular friction.
    pub fn apply_angular_friction(&mut self)
        ensures
            final(self)@ == old(self)@.angular_friction_applied(),
    {
        if let Some(friction) = self.angular_friction {
            if let Some(velocity) = &mut self.angular_velocity {
                velocity.apply_friction(&friction);
            }
        }
    }

    /// Scales the pending force, if the body has a linear velocity and a
    /// linear force factor.
    pub fn apply_linear_force_factor(&mut self)
        ensures
            final(self)@ == old(self)@.linear_force_factor_applied(),
    {
        if let Some(factor) = self.linear_force_factor {
            if let Some(velocity) = &mut self.linear_velocity {
                velocity.apply_force_factor(&factor);
            }
        }
    }

    /// Scales the pending torque, if the body has an angular velocity and an
    /// angular force factor.
    pub fn apply_angular_force_factor(&mut self)
        ensures
            final(self)@ == old(self)@.angular_force_factor_applied(),
    {
        if let Some(factor) = self.angular_force_factor {
            if let Some(velocity) = &mut self.angular_velocity {
                velocity.apply_force_factor(&factor);
            }
        }
    }

    /// Integrates the pending force over a step of `dt` nanoseconds, if the body has a
    /// linear velocity.
    pub fn apply_linear_velocity(&mut self, dt: i64)
        ensures
            final(self)@ == old(self)@.linear_velocity_applied(dt),
    {
        if let Some(velocity) = &mut self.linear_velocity {
            velocity.integrate(dt);
        }
    }

    /// Integrates the pending torque over a step of `dt` nanoseconds, if the body has an
    /// angular velocity.
    pub fn apply_angular_velocity(&mut self, dt: i64)
        ensures
            final(self)@ == old(self)@.angular_velocity_applied(dt),
    {
        if let Some(velocity) = &mut self.angular_velocity {
            velocity.integrate(dt);
        }
    }

    /// Limits the speed, if the body has a linear velocity and a linear speed
    /// limit.
    pub fn apply_linear_max_velocity(&mut self)
        ensures
            final(self)@ == old(self)@.linear_max_velocity_applied(),
    {
        if let Some(max) = self.linear_max_velocity {
            if let Some(velocity) = &mut self.linear_velocity {
                velocity.apply_max_velocity(&max);
            }
        }
    }

    /// Limits the angular speed, if the body has an angular velocity and an
    /// angular speed limit.
    pub fn apply_angular_max_velocity(&mut self)
        ensures
            final(self)@ == old(self)@.angular_max_velocity_applied(),
    {
        if let Some(max) = self.angular_max_velocity {
            if let Some(velocity) = &mut self.angular_velocity {
                velocity.apply_max_velocity(&max);
            }
        }
    }

    /// Moves the body by its linear velocity times `dt` nanoseconds, if it has one.
    pub fn update_position(&mut self, dt: i64)
        ensures
            final(self)@ == old(self)@.position_updated(dt),
    {
        if let Some(velocity) = self.linear_velocity {
            self.position = velocity.moved(self.position, dt);
        }
    }

    /// Turns the body by its angular velocity times `dt` nanoseconds, if it has one.
    pub fn update_rotation(&mut self, dt: i64)
        ensures
            final(self)@ == old(self)@.rotation_updated(dt),
    {
        if let Some(velocity) = self.angular_velocity {
            self.rotation = velocity.turned(self.rotation, dt);
        }
    }

    /// Forgets the collisions on record, if the body has a collider.
    pub fn flush_collider(&mut self)
        ensures
            final(self)@ == old(self)@.collider_flushed(),
    {
        if let Some(collider) = &mut self.collider {
            collider.flush();
        }
    }

    /// Forgets the broad-phase candidates, if the body has a detector.
    pub fn flush_collision_detector(&mut self)
        ensures
            final(self)@ == old(self)@.collision_detector_flushed(),
    {
        if let Some(detector) = &mut self.collision_detector {
            detector.flush();
        }
    }

    /// Recomputes the world corners of the collider from the position, if
    /// the body has a collider.
    pub fn update_vertices(&mut self)
        ensures
            final(self)@ == old(self)@.vertices_updated(),
    {
        let origin: Vec2 = self.position;
        if let Some(collider) = &mut self.collider {
            collider.update_vertices(origin);
        }
    }

    /// Moves the candidates in `found` to the end of the detector's list, if
    /// the body has a detector.
    pub fn add_targets(&mut self, found: &mut Vec<u64>)
        ensures
            final(self)@ == old(self)@.with_targets(old(found)@),
    {
        if let Some(detector) = &mut self.collision_detector {
            detector.possible_targets.append(found);
        }
    }

    /// Moves the body out of a static box along the axis of the shorter
    /// penetration component, and brings its linear motion to rest.
    pub fn push_out(&mut self, offset: Vec2)
        ensures
            final(self)@ == old(self)@.pushed(offset),
    {
        if unsigned_magnitude(offset.x) < unsigned_magnitude(offset.y) {
            self.position.x = plus(self.position.x, offset.x);
        } else {
            self.position.y = plus(self.position.y, offset.y);
        }
        if let Some(velocity) = &mut self.linear_velocity {
            velocity.flush();
            velocity.set(Vec2::zero());
        }
    }

    /// The number of broad-phase candidates; none without a detector.
    pub fn target_count(&self) -> (r: usize)
        ensures
            r == self@.spec_target_count(),
    {
        match &self.collision_detector {
            Some(detector) => detector.possible_targets.len(),
            None => 0,
        }
    }

    /// The broad-phase candidate at index `k`.
    pub fn target_at(&self, k: usize) -> (r: Option<u64>)
        ensures
            r == (if k < self@.spec_target_count() {
                Some(self@.collision_detector->0.possible_targets[k as int])
            } else {
                None
            }),
    {
        match &self.collision_detector {
            Some(detector) => if k < detector.possible_targets.len() {
                Some(detector.possible_targets[k])
            } else {
                None
            },
            None => None,
        }
    }

    /// The world corners of the collider, if there is one.
    pub fn corners(&self) -> (r: Option<(Vec2, Vec2)>)
        ensures
            r == self@.spec_corners(),
    {
        match &self.collider {
            Some(collider) => Some(collider.vertices),
            None => None,
        }
    }

    /// The number of collisions on record; none without a collider.
    pub fn collision_count(&self) -> (r: usize)
        ensures
            r == self@.spec_collision_count(),
    {
        match &self.collider {
            Some(collider) => collider.collisions.len(),
            None => 0,
        }
    }

    /// The collision on record at index `k`.
    pub fn collision_at(&self, k: usize) -> (r: Option<Collision>)
        ensures
            r == (if k < self@.spec_collision_count() {
                Some(self@.collider->0.collisions[k as int])
            } else {
                None
            }),
    {
        match &self.collider {
            Some(collider) => if k < collider.collisions.len() {
                Some(collider.collisions[k])
            } else {
                None
            },
            None => None,
        }
    }

    /// Puts a collision on record, if the body has a collider.
    pub fn collide(&mut self, collision: Collision)
        ensures
            final(self)@ == old(self)@.recorded(collision),
    {
        if let Some(collider) = &mut self.collider {
            collider.collide(collision);
        }
    }
}

impl World {
    /// A world without bodies.
    pub fn new() -> (r: World)
        ensures
            r@ == Seq::<BodyView>::empty(),
    {
        let r = World { bodies: Vec::new() };
        assert(r@ =~= Seq::<BodyView>::empty());
        r
    }

    /// Adds a body; it is visited after all the others.
    pub fn spawn(&mut self, body: Body)
        ensures
            final(self)@ == old(self)@.push(body@),
    {
        self.bodies.push(body);
        assert(self@ =~= old(self)@.push(body@));
    }

    /// The number of bodies.
    pub fn len(&self) -> (r: usize)
        ensures
            r == self@.len(),
    {
        self.bodies.len()
    }
}

} // verus!
