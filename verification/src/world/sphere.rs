use vstd::prelude::*;

use crate::world::vec3::Vec3;

verus! {

/// One sphere primitive: a center position and a radius, all stored as
/// IEEE 754 single-precision bit patterns. Spheres form a flat list whose
/// order does not affect rendering, only the index a sphere gets in the
/// packed record.
#[derive(Clone, Copy, Debug, PartialEq, Eq, Structural)]
pub struct Sphere {
    pub pos: Vec3,
    pub radius: u32,
}

impl Sphere {
    /// Builds a sphere from its center and radius bit patterns.
    pub fn new(pos: Vec3, radius: u32) -> (s: Sphere)
        ensures
            s == (Sphere { pos, radius }),
    {
        Sphere { pos, radius }
    }
}

} // verus!
