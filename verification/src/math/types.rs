//! Scalars, vectors, unit vectors, and intervals.

use vstd::prelude::*;

use crate::math::constants::{EPSILON, INFINITY, NEG_EPSILON, NEG_INFINITY, ZERO};

verus! {

/// A real scalar, carried as a 64-bit integer code of its IEEE double
/// encoding: a non-negative double keeps its bit pattern with the sign bit
/// set, a negative double has all bits inverted.
///
/// The unsigned order on codes is exactly the IEEE 754 `totalOrder` on
/// doubles (the order `f64::total_cmp` implements): it agrees with the usual
/// `<` on all numeric values, places `-0.0` immediately below `+0.0`, and
/// puts NaNs outside the two infinities. Negating a double complements its
/// code. Callers that hold doubles map them to codes at the boundary; all
/// comparison and selection logic here works on the codes alone.
pub type Scalar = u64;

/// The code of the negation of the scalar with code `s`.
pub open spec fn spec_scalar_neg(s: Scalar) -> Scalar {
    !s
}

/// A 3-component vector of scalars, used interchangeably as a free vector
/// or an affine point.
#[derive(Clone, Copy, PartialEq, Eq, Structural, Debug)]
pub struct Vec3 {
    pub x: Scalar,
    pub y: Scalar,
    pub z: Scalar,
}

/// A point in 3-space; the same representation as [`Vec3`].
pub type Point3 = Vec3;

impl Vec3 {
    /// Builds a vector from its three components.
    pub fn new(x: Scalar, y: Scalar, z: Scalar) -> (v: Vec3)
        ensures
            v == (Vec3 { x, y, z }),
    {
        Vec3 { x, y, z }
    }

    /// The component-wise negation of this vector.
    pub open spec fn spec_neg(self) -> Vec3 {
        Vec3 { x: spec_scalar_neg(self.x), y: spec_scalar_neg(self.y), z: spec_scalar_neg(self.z) }
    }

    /// Negates the vector component-wise; on codes this is a bitwise
    /// complement of each component.
    pub fn neg(&self) -> (r: Vec3)
        ensures
            r == self.spec_neg(),
    {
        Vec3 { x: !self.x, y: !self.y, z: !self.z }
    }

    /// Whether every component lies strictly within the near-zero epsilon
    /// band: such a vector is too short to serve as a scatter direction.
    pub open spec fn spec_near_zero(self) -> bool {
        &&& NEG_EPSILON < self.x < EPSILON
        &&& NEG_EPSILON < self.y < EPSILON
        &&& NEG_EPSILON < self.z < EPSILON
    }

    /// Returns `true` if all components are below the near-zero epsilon in
    /// magnitude.
    pub fn near_zero(&self) -> (b: bool)
        ensures
            b == self.spec_near_zero(),
    {
        NEG_EPSILON < self.x && self.x < EPSILON && NEG_EPSILON < self.y && self.y < EPSILON
            && NEG_EPSILON < self.z && self.z < EPSILON
    }
}

/// A vector that its producer asserts to be unit length.
///
/// The unit-length claim lives on the floating-point side of the boundary
/// and is deliberately not checked here: [`UnitVec3::new_unchecked`] trusts
/// the caller, exactly as when a sphere normal is derived as
/// `(hit_point - center) / radius` and is unit length by construction.
/// Handing it a non-unit vector silently corrupts shading; that tradeoff is
/// part of the design, not a defect to guard against.
#[derive(Clone, Copy, PartialEq, Eq, Structural, Debug)]
pub struct UnitVec3(pub Vec3);

impl UnitVec3 {
    /// Wraps the given [`Vec3`], trusting the caller that it is already
    /// unit length.
    pub fn new_unchecked(v: Vec3) -> (u: UnitVec3)
        ensures
            u.0 == v,
    {
        UnitVec3(v)
    }

    /// Retrieves the underlying [`Vec3`].
    pub fn into_inner(self) -> (v: Vec3)
        ensures
            v == self.0,
    {
        self.0
    }

    /// The negation of this unit vector.
    pub open spec fn spec_neg(self) -> UnitVec3 {
        UnitVec3(self.0.spec_neg())
    }

    /// Negates the unit vector; the negation of a unit vector is again
    /// unit length.
    pub fn neg(&self) -> (r: UnitVec3)
        ensures
            r == self.spec_neg(),
    {
        UnitVec3(self.0.neg())
    }

    /// Orients the vector into the hemisphere of a surface normal, given
    /// the code of its dot product with that normal: kept when the dot
    /// product is positive, flipped otherwise.
    pub fn into_hemisphere(self, dot_normal: Scalar) -> (r: UnitVec3)
        ensures
            r == if dot_normal > ZERO {
                self
            } else {
                self.spec_neg()
            },
    {
        if dot_normal > ZERO {
            self
        } else {
            self.neg()
        }
    }
}

/// An interval defines a range over its parameters: an ordered pair
/// `(min, max)` of scalars.
#[derive(Clone, Copy, PartialEq, Eq, Structural, Debug)]
pub struct Interval(pub Scalar, pub Scalar);

impl Interval {
    /// The interval `(+infinity, -infinity)`, which surrounds nothing.
    pub open spec fn spec_empty() -> Interval {
        Interval(INFINITY, NEG_INFINITY)
    }

    /// The interval `(-infinity, +infinity)`, which surrounds every
    /// non-NaN scalar.
    pub open spec fn spec_universe() -> Interval {
        Interval(NEG_INFINITY, INFINITY)
    }

    /// Returns the empty interval `(+infinity, -infinity)`.
    pub fn empty() -> (i: Interval)
        ensures
            i == Interval::spec_empty(),
    {
        Interval(INFINITY, NEG_INFINITY)
    }

    /// Returns the universal interval `(-infinity, +infinity)`.
    pub fn universe() -> (i: Interval)
        ensures
            i == Interval::spec_universe(),
    {
        Interval(NEG_INFINITY, INFINITY)
    }

    /// Returns a new interval `(min, max)`.
    pub fn new(min: Scalar, max: Scalar) -> (i: Interval)
        ensures
            i == (Interval(min, max)),
    {
        Interval(min, max)
    }

    /// Whether the interval contains `x`, lower bound inclusive and upper
    /// bound exclusive.
    pub open spec fn spec_contains(self, x: Scalar) -> bool {
        self.0 <= x && x < self.1
    }

    /// Returns `true` if the interval contains `x`, lower bound inclusive
    /// and upper bound exclusive.
    pub fn contains(&self, x: Scalar) -> (b: bool)
        ensures
            b == self.spec_contains(x),
    {
        self.0 <= x && x < self.1
    }

    /// Whether the interval surrounds `x`, both bounds exclusive.
    pub open spec fn spec_surrounds(self, x: Scalar) -> bool {
        self.0 < x && x < self.1
    }

    /// Returns `true` if the interval contains `x`, bounds non-inclusive.
    pub fn surrounds(&self, x: Scalar) -> (b: bool)
        ensures
            b == self.spec_surrounds(x),
    {
        self.0 < x && x < self.1
    }

    /// `x` clamped to `[min, max]`.
    pub open spec fn spec_clamp(self, x: Scalar) -> Scalar {
        if x < self.1 {
            if x < self.0 {
                self.0
            } else {
                x
            }
        } else {
            if self.1 < self.0 {
                self.0
            } else {
                self.1
            }
        }
    }

    /// Clamps `x` to be within this interval: the smaller of `x` and `max`,
    /// raised to at least `min`.
    pub fn clamp(&self, x: Scalar) -> (r: Scalar)
        ensures
            r == self.spec_clamp(x),
    {
        let low: Scalar = if x < self.1 {
            x
        } else {
            self.1
        };
        if low < self.0 {
            self.0
        } else {
            low
        }
    }
}

impl Default for Interval {
    /// Returns the empty interval.
    fn default() -> (i: Interval)
        ensures
            i == Interval::spec_empty(),
    {
        Interval(INFINITY, NEG_INFINITY)
    }
}

/// An interval is strictly exclusive at both bounds: it never surrounds its
/// own `min` or its own `max`.
pub proof fn lemma_surrounds_excludes_bounds(i: Interval)
    ensures
        !i.spec_surrounds(i.0),
        !i.spec_surrounds(i.1),
{
}

/// The empty interval surrounds no scalar at all.
pub proof fn lemma_empty_surrounds_nothing(x: Scalar)
    ensures
        !Interval::spec_empty().spec_surrounds(x),
{
}

} // verus!
