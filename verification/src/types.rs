//! The engine's component data: vectors, transforms, velocities, the orbit
//! camera, the shared drag ray, and the error type for entity-indexed calls.

use vstd::prelude::*;

use crate::fixed::{fxa, fxs};

verus! {

/// A three-component fixed-point vector.
#[derive(Clone, Copy, PartialEq, Eq, Structural, Debug)]
pub struct V3 {
    pub x: i64,
    pub y: i64,
    pub z: i64,
}

/// The vector's components as a mathematical triple.
pub open spec fn v3i(v: V3) -> (int, int, int) {
    (v.x as int, v.y as int, v.z as int)
}

/// Componentwise saturating sum of two triples.
pub open spec fn t3a(a: (int, int, int), b: (int, int, int)) -> (int, int, int) {
    (fxa(a.0, b.0), fxa(a.1, b.1), fxa(a.2, b.2))
}

/// Componentwise saturating difference of two triples.
pub open spec fn t3s(a: (int, int, int), b: (int, int, int)) -> (int, int, int) {
    (fxs(a.0, b.0), fxs(a.1, b.1), fxs(a.2, b.2))
}

/// A triple of in-range integers as a vector.
pub open spec fn v3of(t: (int, int, int)) -> V3 {
    V3 { x: t.0 as i64, y: t.1 as i64, z: t.2 as i64 }
}

/// Placement of an entity: position, Euler rotation (only the Y component is
/// ever advanced), and scale.
#[derive(Clone, Copy, PartialEq, Eq, Structural, Debug)]
pub struct Transform {
    pub position: V3,
    pub rotation: V3,
    pub scale: V3,
}

/// Linear velocity of an entity.
#[derive(Clone, Copy, PartialEq, Eq, Structural, Debug)]
pub struct Velocity {
    pub linear: V3,
}

/// Orbit camera: a target, spherical orbit parameters, and the projection
/// settings. The eye position is always derived, never stored.
#[derive(Clone, Copy, PartialEq, Eq, Structural, Debug)]
pub struct Camera {
    pub target: V3,
    pub yaw: i64,
    pub pitch: i64,
    pub distance: i64,
    pub fov: i64,
    pub near: i64,
    pub far: i64,
    pub aspect: i64,
}

/// The most recently supplied pointer ray, shared by all dragging entities.
#[derive(Clone, Copy, PartialEq, Eq, Structural, Debug)]
pub struct DragRay {
    pub origin: V3,
    pub dir: V3,
}

/// Failure of an entity-indexed operation.
#[derive(Clone, Copy, PartialEq, Eq, Structural, Debug)]
pub enum EngineError {
    /// The entity id lies outside the allocated range.
    InvalidEntity,
}

} // verus!
