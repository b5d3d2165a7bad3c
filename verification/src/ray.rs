//! Rays: immutable origin plus unit direction.

use vstd::prelude::*;

use crate::math::types::{Point3, UnitVec3};

verus! {

/// A parametric line: an origin and a unit direction. Rays are cheap,
/// copyable, and never mutated after construction. The point-at-parameter
/// evaluation `origin + t * direction` is floating-point work done by the
/// caller holding the doubles.
#[derive(Clone, Copy, PartialEq, Eq, Structural, Debug)]
pub struct Ray {
    origin: Point3,
    direction: UnitVec3,
}

impl Ray {
    /// The origin of the ray.
    pub closed spec fn spec_origin(self) -> Point3 {
        self.origin
    }

    /// The direction of the ray.
    pub closed spec fn spec_direction(self) -> UnitVec3 {
        self.direction
    }

    /// Constructs a new ray with an origin and direction.
    pub fn new(origin: Point3, direction: UnitVec3) -> (r: Ray)
        ensures
            r.spec_origin() == origin,
            r.spec_direction() == direction,
    {
        Ray { origin, direction }
    }

    /// Returns the origin of the ray.
    pub fn origin(&self) -> (o: Point3)
        ensures
            o == self.spec_origin(),
    {
        self.origin
    }

    /// Returns the direction of the ray.
    pub fn direction(&self) -> (d: UnitVec3)
        ensures
            d == self.spec_direction(),
    {
        self.direction
    }
}

} // verus!
