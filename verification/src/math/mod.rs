//! Math module: scalar codes, vectors, intervals, and geometric primitives.

pub mod constants;
pub mod primitives;
pub mod types;
