//! The two vector operations of the per-frame transform, performed by the
//! math backend on IEEE-754 single-precision values.
//!
//! The backend's results are named by uninterpreted spec functions: both
//! operations are pure functions of their scalar arguments, but their exact
//! rounding behaviour is not restated here.  Contracts elsewhere in the
//! crate speak of these names, and the tests exercise the real backend.

use crate::pose::Vec3Words;
use vstd::prelude::*;

verus! {

/// The word triple the math backend returns when the vector `(x, y, z)` is
/// rotated by `angle` about the axis `(ax, ay, az)`.
pub uninterp spec fn rotated_words(
    x: u32,
    y: u32,
    z: u32,
    angle: u32,
    ax: u32,
    ay: u32,
    az: u32,
) -> (u32, u32, u32);

/// The word triple the math backend returns when the vectors `(x, y, z)`
/// and `(tx, ty, tz)` are added componentwise.
pub uninterp spec fn translated_words(
    x: u32,
    y: u32,
    z: u32,
    tx: u32,
    ty: u32,
    tz: u32,
) -> (u32, u32, u32);

/// Relies on `nalgebra_glm::rotate_vec3`: axis-angle rotation of a
/// three-component vector, a pure function of its seven scalar arguments.
#[verifier::external_body]
pub(crate) fn rotate_words(v: Vec3Words, angle: u32, axis: Vec3Words) -> (r: Vec3Words)
    ensures
        (r.x, r.y, r.z) == rotated_words(v.x, v.y, v.z, angle, axis.x, axis.y, axis.z),
{
    let vv: nalgebra_glm::Vec3 =
        nalgebra_glm::vec3(bytemuck::cast(v.x), bytemuck::cast(v.y), bytemuck::cast(v.z));
    let aa: nalgebra_glm::Vec3 =
        nalgebra_glm::vec3(bytemuck::cast(axis.x), bytemuck::cast(axis.y), bytemuck::cast(axis.z));
    let rr = nalgebra_glm::rotate_vec3(&vv, bytemuck::cast(angle), &aa);
    Vec3Words { x: bytemuck::cast(rr.x), y: bytemuck::cast(rr.y), z: bytemuck::cast(rr.z) }
}

/// Relies on the componentwise `Add` impl of `nalgebra_glm::Vec3`: vector
/// addition, a pure function of its six scalar arguments.
#[verifier::external_body]
pub(crate) fn translate_words(v: Vec3Words, t: Vec3Words) -> (r: Vec3Words)
    ensures
        (r.x, r.y, r.z) == translated_words(v.x, v.y, v.z, t.x, t.y, t.z),
{
    let vv: nalgebra_glm::Vec3 =
        nalgebra_glm::vec3(bytemuck::cast(v.x), bytemuck::cast(v.y), bytemuck::cast(v.z));
    let tt: nalgebra_glm::Vec3 =
        nalgebra_glm::vec3(bytemuck::cast(t.x), bytemuck::cast(t.y), bytemuck::cast(t.z));
    let ss = vv + tt;
    Vec3Words { x: bytemuck::cast(ss.x), y: bytemuck::cast(ss.y), z: bytemuck::cast(ss.z) }
}

} // verus!
