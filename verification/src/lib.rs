//! Verified core of a small 3D rendering scaffold.
//!
//! The heart of the crate is the mesh subsystem: a [`mesh::Mesh`] owns a list
//! of vertices (each a fixed-size tuple of 32-bit component words), a declared
//! partition of that tuple into attributes, and a triangle index list.  The
//! crate validates the partition against the vertex size, derives byte
//! offsets and strides for attribute binding, and recomputes the transformed
//! flat vertex buffer from a pose each tick, ready for upload to the
//! rendering backend.
//!
//! The rendering backend itself (windowing, buffer upload, shader
//! compilation, input polling) is driven by the surrounding application; this
//! crate only makes the decisions and produces the data.

pub mod handles;
pub mod mesh;
pub mod mouse;
pub mod pose;
pub mod shader;
pub mod vecmath;
