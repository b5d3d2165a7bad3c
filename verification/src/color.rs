//! Linear-space RGB colors.

use vstd::prelude::*;

use crate::math::constants::{ONE, ZERO};
use crate::math::types::{Scalar, Vec3};

verus! {

/// An RGB color triple in linear space (pre-gamma-correction), each channel
/// carried as a scalar code.
#[derive(Clone, Copy, PartialEq, Eq, Structural, Debug)]
pub struct Color(pub Vec3);

impl Color {
    /// Builds a color from its red, green, and blue channels.
    pub fn new(r: Scalar, g: Scalar, b: Scalar) -> (c: Color)
        ensures
            c == (Color(Vec3 { x: r, y: g, z: b })),
    {
        Color(Vec3 { x: r, y: g, z: b })
    }

    /// The all-zero color.
    pub open spec fn spec_black() -> Color {
        Color(Vec3 { x: ZERO, y: ZERO, z: ZERO })
    }

    /// Returns the all-zero color.
    pub fn black() -> (c: Color)
        ensures
            c == Color::spec_black(),
    {
        Color(Vec3 { x: ZERO, y: ZERO, z: ZERO })
    }

    /// The all-one color.
    pub open spec fn spec_white() -> Color {
        Color(Vec3 { x: ONE, y: ONE, z: ONE })
    }

    /// Returns the all-one color.
    pub fn white() -> (c: Color)
        ensures
            c == Color::spec_white(),
    {
        Color(Vec3 { x: ONE, y: ONE, z: ONE })
    }
}

} // verus!
