//! Coherent-noise synthesis over 3D space.
//!
//! Scalar values are IEEE 754 binary64 numbers carried as raw `u64` bit
//! patterns, and all arithmetic on them is implemented here as verified
//! integer code, so every evaluation is a pure function of its inputs.

pub mod fp;
pub mod spline;
pub mod util;
pub mod noisegen;
pub mod module;
