//! Scene-side data: vectors, camera, spheres, and the scene that owns them.

pub mod camera;
pub mod scene;
pub mod sphere;
pub mod vec3;
