use vstd::prelude::*;

verus! {

/// A three-component vector whose components are IEEE 754 single-precision
/// bit patterns. The renderer never does arithmetic on these values on the
/// host: it only moves them, byte for byte, into the packed scene record,
/// so the raw 32-bit patterns are the natural host-side representation.
#[derive(Clone, Copy, Debug, PartialEq, Eq, Structural)]
pub struct Vec3 {
    pub x: u32,
    pub y: u32,
    pub z: u32,
}

impl Vec3 {
    /// Builds a vector from three component bit patterns.
    pub fn new(x: u32, y: u32, z: u32) -> (v: Vec3)
        ensures
            v == (Vec3 { x, y, z }),
    {
        Vec3 { x, y, z }
    }
}

} // verus!
