//! Verified core of a small sphere ray tracer.
//!
//! The floating-point light transport itself (vector arithmetic, sphere
//! intersection, material scattering, the camera lens model) runs in the
//! unverified application layer; this crate holds the parts that can be
//! stated and proved exactly: pixel color values, the per-bounce decision
//! policy of the path tracer, nearest-hit resolution across the scene,
//! and the raster row conventions.

pub mod color;
pub mod raster;
pub mod scene;
pub mod transport;
