//! Metal material: perfect mirror reflection.

use vstd::prelude::*;

use crate::color::Color;

verus! {

/// Scatters the incoming ray as its perfect mirror reflection about the
/// surface normal, attenuated by the albedo. Always scatters.
#[derive(Clone, Copy, PartialEq, Eq, Structural, Debug)]
pub struct Metal {
    albedo: Color,
}

impl Metal {
    /// The albedo this material attenuates each bounce by.
    pub closed spec fn spec_albedo(self) -> Color {
        self.albedo
    }

    /// Builds a metal material with the given albedo.
    pub fn new(albedo: Color) -> (m: Metal)
        ensures
            m.spec_albedo() == albedo,
    {
        Metal { albedo }
    }

    /// Returns the albedo.
    pub fn albedo(&self) -> (c: Color)
        ensures
            c == self.spec_albedo(),
    {
        self.albedo
    }
}

} // verus!
