//! Core of a two-stage GPU ray tracer: a scene model, a byte-exact scene
//! packer for the compute kernel's uniform layout, and the per-frame
//! decision logic (resize policy, dispatch sizing, pass ordering, error
//! classification). All device and window work lives outside this crate;
//! this library computes every value the device work consumes.

pub mod render;
pub mod world;
