//! Diffuse material: scatters into the hemisphere of the surface normal.

use vstd::prelude::*;

use crate::color::Color;

verus! {

/// Scatters the incoming ray into a uniformly random direction in the
/// hemisphere of the surface normal, attenuated by the albedo. Always
/// scatters.
#[derive(Clone, Copy, PartialEq, Eq, Structural, Debug)]
pub struct Diffuse {
    albedo: Color,
}

impl Diffuse {
    /// The albedo this material attenuates each bounce by.
    pub closed spec fn spec_albedo(self) -> Color {
        self.albedo
    }

    /// Builds a diffuse material with the given albedo.
    pub fn new(albedo: Color) -> (d: Diffuse)
        ensures
            d.spec_albedo() == albedo,
    {
        Diffuse { albedo }
    }

    /// Returns the albedo.
    pub fn albedo(&self) -> (c: Color)
        ensures
            c == self.spec_albedo(),
    {
        self.albedo
    }
}

} // verus!
