//! Renderer-side logic: the packed scene record, per-frame planning, the
//! frame state machine, surface-format choice, and error classification.

pub mod float_bits;
pub mod format;
pub mod frame;
pub mod packer;
pub mod ray_trace_render;
