//! Frame-stepped simulation core for a small 3D scene: entity storage with
//! optional transforms and velocities, an orbit camera, ray picking against
//! oriented boxes, a drag state machine anchored to the ground plane, and a
//! packed render buffer.
//!
//! Every scalar is a fixed-point number: an `i64` counting millionths of a
//! unit, with all arithmetic saturating at a fixed bound. This keeps every
//! quantity exact in contracts; a host that works in floating point converts
//! at the boundary.

pub mod engine;
pub mod fixed;
pub mod laws;
pub mod mat;
pub mod ray;
pub mod trig;
pub mod types;

pub use crate::engine::{Engine, Entity, DIST_MAX, DIST_MIN, PITCH_MAX};
pub use crate::fixed::{EPS, FX_MAX, HALF, SCALE};
pub use crate::types::{Camera, DragRay, EngineError, Transform, Velocity, V3};
