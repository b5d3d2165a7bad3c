//! Core of a CPU path tracer: scene data model, ray/sphere intersection
//! search, material registry, sub-pixel samplers, and the per-bounce light
//! transport decisions.
//!
//! Real-valued quantities (ray parameters, coordinates, colors) are carried
//! as the order-preserving integer codes of their IEEE double encodings (see
//! [`math::types::Scalar`]). All comparison, selection, and bookkeeping logic
//! is implemented and verified here over those codes; the floating-point
//! arithmetic that produces them (vector algebra, the quadratic solver,
//! random jitter) is the caller's side of the boundary.

pub mod camera;
pub mod color;
pub mod hittable;
pub mod materials;
pub mod math;
pub mod ray;
pub mod samplers;
pub mod scene_builder;
pub mod world;
