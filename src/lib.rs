//! Per-fragment color synthesis for a software rasterizer: color blending
//! primitives and procedural planet-surface patterns, over fixed-point scalars.

pub mod color;
pub mod shaders;
