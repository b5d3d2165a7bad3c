//! Normals material: a debug visualization of surface normals.

use vstd::prelude::*;

verus! {

/// Never scatters: it terminates the path and emits the surface normal
/// remapped from `[-1, 1]` to `[0, 1]` per channel as a visualization
/// color.
#[derive(Clone, Copy, PartialEq, Eq, Structural, Debug)]
pub struct Normals;

impl Normals {
    /// Builds the normals debug material.
    pub fn new() -> (n: Normals)
        ensures
            n == (Normals {}),
    {
        Normals {}
    }
}

impl Default for Normals {
    /// Builds the normals debug material.
    fn default() -> (n: Normals)
        ensures
            n == (Normals {}),
    {
        Normals::new()
    }
}

} // verus!
