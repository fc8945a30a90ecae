//! Rendering core of a minimal real-time engine.
//!
//! The library owns the camera mathematics, the CPU-side mirror of the GPU
//! camera uniform, the fixed triangle geometry, the scene component storage,
//! the input and physics services, and the rendering service that drives a
//! GPU surface through resize and per-frame draw operations.
//!
//! Floating-point values are carried everywhere as their raw IEEE-754 bit
//! patterns (`u32`), so that the surrounding logic can be verified while the
//! arithmetic itself is delegated to trusted calls into `glam` and `f32`.

pub mod components;
pub mod input;
pub mod math;
pub mod physics;
pub mod rendering;
pub mod scene;
