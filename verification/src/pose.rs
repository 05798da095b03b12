//! Poses: the translation and axis-angle rotation applied to a mesh each
//! frame.
//!
//! Vertex components, positions and angles are IEEE-754 single-precision
//! values on the math backend's side.  This crate never interprets them
//! numerically: it carries each one as an opaque 32-bit word and leaves all
//! numeric work to the backend, behind the wrappers in [`crate::vecmath`].

use vstd::prelude::*;

verus! {

/// A two-component vector, each component an opaque 32-bit word.
#[derive(Clone, Copy, PartialEq, Eq, Structural, Debug)]
pub struct Vec2Words {
    pub x: u32,
    pub y: u32,
}

/// A three-component vector, each component an opaque 32-bit word.
#[derive(Clone, Copy, PartialEq, Eq, Structural, Debug)]
pub struct Vec3Words {
    pub x: u32,
    pub y: u32,
    pub z: u32,
}

/// A pose: a translation and an axis-angle rotation, applied uniformly to
/// every vertex of a mesh to produce the per-frame transformed vertex set.
///
/// The rotation `angle` is the accumulated angle of the driving entity, not
/// a per-frame delta: the transform is recomputed from the mesh's base
/// vertices each tick.
#[derive(Clone, Copy, PartialEq, Eq, Structural, Debug)]
pub struct Pose {
    /// Translation added to each rotated position.
    pub position: Vec3Words,
    /// Axis of rotation.
    pub axis: Vec3Words,
    /// Accumulated rotation angle about `axis`, in radians.
    pub angle: u32,
}

} // verus!
