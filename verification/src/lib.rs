//! Core of a small 2D rendering engine: transform and projection math,
//! sprite geometry generation, and the GPU-resource bookkeeping (vertex
//! buffers, shader programs, uniform bindings) needed to upload that
//! geometry and issue draws.
//!
//! All scalar quantities are exact rationals held as 64-bit integer
//! numerators over a positive denominator, so every matrix and vertex
//! computation here is exact; the thin layer that talks to the GPU
//! converts them to the device's floating-point format at the boundary.

pub mod gl_utility;
pub mod graphics;
pub mod math;
