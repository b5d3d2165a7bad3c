//! Lambertian material: cosine-weighted scattering off the surface normal.

use vstd::prelude::*;

use crate::color::Color;

verus! {

/// Scatters the incoming ray along `normal + random_unit_vector`, falling
/// back to the normal itself when that sum is near zero, attenuated by the
/// albedo. Always scatters.
#[derive(Clone, Copy, PartialEq, Eq, Structural, Debug)]
pub struct Lambertian {
    albedo: Color,
}

impl Lambertian {
    /// The albedo this material attenuates each bounce by.
    pub closed spec fn spec_albedo(self) -> Color {
        self.albedo
    }

    /// Builds a Lambertian material with the given albedo.
    pub fn new(albedo: Color) -> (l: Lambertian)
        ensures
            l.spec_albedo() == albedo,
    {
        Lambertian { albedo }
    }

    /// Returns the albedo.
    pub fn albedo(&self) -> (c: Color)
        ensures
            c == self.spec_albedo(),
    {
        self.albedo
    }
}

} // verus!
