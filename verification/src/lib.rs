//! A verified model of a small real-time rendering engine: surface
//! configuration and resize handling, bind-group layouts and their
//! compatibility rules, static mesh geometry with its exact byte layout,
//! an animated model transform serialized once per frame, and the
//! per-frame command recording that drives a single draw call.
//!
//! Scalar values destined for the GPU are carried as IEEE 754 single
//! precision bit patterns (`u32`), so that every byte that reaches a
//! GPU buffer is accounted for exactly. The handful of floating-point
//! computations (quaternion products, trigonometry, matrix composition)
//! are delegated to an external linear-algebra crate through thin
//! trusted wrappers over those bit patterns.

pub mod algebra;
pub mod animator;
pub mod binding;
pub mod camera;
pub mod codec;
pub mod error;
pub mod events;
pub mod frame;
pub mod geometry;
pub mod scalar;
pub mod surface;
pub mod texture;
pub mod transform;
pub mod variant;
