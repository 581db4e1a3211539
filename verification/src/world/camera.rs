use vstd::prelude::*;

use crate::world::vec3::Vec3;

verus! {

/// The viewpoint: a position and an orthonormal basis (forward, right, up).
/// All components are IEEE 754 single-precision bit patterns; the host never
/// computes with them, it only serializes them for the ray-trace kernel.
/// Keeping the basis orthonormal and unit-length is the caller's
/// responsibility: the renderer does not validate it at run time.
#[derive(Clone, Copy, Debug, PartialEq, Eq, Structural)]
pub struct Camera {
    pub pos: Vec3,
    pub forward: Vec3,
    pub right: Vec3,
    pub up: Vec3,
}

impl Camera {
    /// Builds a camera from its position and basis vectors.
    pub fn new(pos: Vec3, forward: Vec3, right: Vec3, up: Vec3) -> (c: Camera)
        ensures
            c == (Camera { pos, forward, right, up }),
    {
        Camera { pos, forward, right, up }
    }
}

} // verus!
