//! A deterministic 2D motion-and-collision kernel for arcade-style games.
//!
//! Every quantity is a fixed-point number: an `i64` that counts thousandths of
//! a unit. Time has a finer unit of its own: a step is an `i64` that counts
//! nanoseconds, and every rate is per second. Arithmetic saturates at the ends
//! of the `i64` range, so every stage is a total function of its inputs.

pub mod camera;
pub mod fixed;
pub mod physics;
pub mod player;
pub mod root;
pub mod terrain;
pub mod vec2;
