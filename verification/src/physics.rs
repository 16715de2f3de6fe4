//! The two phases of a tick: collision, then movement.

pub mod body;
pub mod collision;
pub mod collision_theorems;
pub mod detection;
pub mod integrator;
pub mod movement;
pub mod movement_theorems;
pub mod narrow_phase;
pub mod resolver;
pub mod tick;
