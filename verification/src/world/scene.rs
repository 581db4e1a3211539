use vstd::prelude::*;

use crate::world::camera::Camera;
use crate::world::sphere::Sphere;

verus! {

/// Everything the renderer reads each frame: one camera and an ordered
/// sequence of spheres. The renderer only reads a scene; the host
/// application owns and mutates it between frames.
pub struct Scene {
    pub camera: Camera,
    pub spheres: Vec<Sphere>,
}

impl Scene {
    /// Builds a scene from a camera and a sphere list.
    pub fn new(camera: Camera, spheres: Vec<Sphere>) -> (s: Scene)
        ensures
            s.camera == camera,
            s.spheres@ == spheres@,
    {
        Scene { camera, spheres }
    }
}

} // verus!
