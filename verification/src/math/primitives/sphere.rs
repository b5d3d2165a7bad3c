//! The sphere primitive and its ray-intersection selection.

use vstd::prelude::*;

use crate::hittable::HitRecord;
use crate::materials::MaterialId;
use crate::math::primitives::{Primitive, PrimitiveDeExtension};
use crate::math::types::{Interval, Point3, Scalar, UnitVec3};

verus! {

/// A sphere, owning its geometric parameters and a reference (not
/// ownership) into the scene's material registry.
#[derive(Clone, Copy, PartialEq, Eq, Structural, Debug)]
pub struct Sphere {
    /// The center of the sphere.
    center: Point3,
    /// The radius of the sphere.
    radius: Scalar,
    /// The material id of the surface.
    material_id: MaterialId,
}

/// One root of the ray/sphere quadratic `|O + tD - C|^2 = r^2`, bundled
/// with the geometric data shading needs at that root. The analytic solve
/// is floating-point work done by the caller holding the doubles; selection
/// among the roots happens here.
#[derive(Clone, Copy, PartialEq, Eq, Structural, Debug)]
pub struct RootCandidate {
    /// The ray parameter at this root.
    pub t: Scalar,
    /// The point the ray reaches at `t`.
    pub hit_point: Point3,
    /// The outward normal at that point, derived as
    /// `(hit_point - center) / radius` and unit length by construction.
    pub outward_normal: UnitVec3,
    /// Code of `dot(ray_direction, outward_normal)`, deciding which face
    /// the ray struck.
    pub dir_dot_outward: Scalar,
}

/// The analytic outcome of intersecting one ray with one sphere.
#[derive(Clone, Copy, PartialEq, Eq, Structural, Debug)]
pub enum SphereRoots {
    /// The discriminant was negative: the ray misses the sphere.
    Miss,
    /// The two roots `(h - sqrt(d))/a` and `(h + sqrt(d))/a`, smaller
    /// first.
    Roots(RootCandidate, RootCandidate),
}

impl SphereRoots {
    /// The solver hands the roots back in order: the smaller root comes
    /// first.
    pub open spec fn wf(self) -> bool {
        match self {
            SphereRoots::Miss => true,
            SphereRoots::Roots(c0, c1) => c0.t <= c1.t,
        }
    }
}

impl Sphere {
    /// The center of the sphere.
    pub closed spec fn spec_center(self) -> Point3 {
        self.center
    }

    /// The radius of the sphere.
    pub closed spec fn spec_radius(self) -> Scalar {
        self.radius
    }

    /// Builds a sphere from its center, radius, and material reference.
    pub fn new(center: Point3, radius: Scalar, material_id: MaterialId) -> (s: Sphere)
        ensures
            s.spec_center() == center,
            s.spec_radius() == radius,
            s.spec_material_id() == material_id,
    {
        Sphere { center, radius, material_id }
    }

    /// Returns the center.
    pub fn center(&self) -> (c: Point3)
        ensures
            c == self.spec_center(),
    {
        self.center
    }

    /// Returns the radius.
    pub fn radius(&self) -> (r: Scalar)
        ensures
            r == self.spec_radius(),
    {
        self.radius
    }

    /// The hit this sphere reports for the analytic roots `roots` within
    /// `ray_t`: nothing when the discriminant was negative; otherwise the
    /// smaller root if the interval surrounds it, else the larger root if
    /// the interval surrounds that, else nothing.
    pub open spec fn spec_hit(self, ray_t: Interval, roots: SphereRoots) -> Option<HitRecord> {
        match roots {
            SphereRoots::Miss => None,
            SphereRoots::Roots(c0, c1) => if ray_t.spec_surrounds(c0.t) {
                Some(
                    HitRecord::spec_new(
                        c0.t,
                        c0.hit_point,
                        c0.outward_normal,
                        c0.dir_dot_outward,
                        self.spec_material_id(),
                    ),
                )
            } else if ray_t.spec_surrounds(c1.t) {
                Some(
                    HitRecord::spec_new(
                        c1.t,
                        c1.hit_point,
                        c1.outward_normal,
                        c1.dir_dot_outward,
                        self.spec_material_id(),
                    ),
                )
            } else {
                None
            },
        }
    }

    /// Selects the reported hit among the analytic roots: the smaller root
    /// in range if one exists, else the larger, else none.
    pub fn hit(&self, ray_t: Interval, roots: &SphereRoots) -> (r: Option<HitRecord>)
        ensures
            r == self.spec_hit(ray_t, *roots),
    {
        match roots {
            SphereRoots::Miss => None,
            SphereRoots::Roots(c0, c1) => {
                if ray_t.surrounds(c0.t) {
                    Some(
                        HitRecord::new(
                            c0.t,
                            c0.hit_point,
                            c0.outward_normal,
                            c0.dir_dot_outward,
                            self.material_id,
                        ),
                    )
                } else if ray_t.surrounds(c1.t) {
                    Some(
                        HitRecord::new(
                            c1.t,
                            c1.hit_point,
                            c1.outward_normal,
                            c1.dir_dot_outward,
                            self.material_id,
                        ),
                    )
                } else {
                    None
                }
            },
        }
    }
}

impl Primitive for Sphere {
}

impl PrimitiveDeExtension for Sphere {
    closed spec fn spec_material_id(&self) -> MaterialId {
        self.material_id
    }

    closed spec fn spec_with_material_id(self, id: MaterialId) -> Sphere {
        Sphere { material_id: id, ..self }
    }

    fn material_id(&self) -> (r: MaterialId) {
        self.material_id
    }

    fn with_material_id(self, id: MaterialId) -> (s: Sphere) {
        Sphere { material_id: id, ..self }
    }
}

/// Rewriting the material reference changes nothing but the reference.
pub proof fn lemma_with_material_id(s: Sphere, id: MaterialId)
    ensures
        s.spec_with_material_id(id).spec_material_id() == id,
        s.spec_with_material_id(id).spec_center() == s.spec_center(),
        s.spec_with_material_id(id).spec_radius() == s.spec_radius(),
{
}

/// A reported hit always lies strictly inside the search interval.
pub proof fn lemma_hit_t_in_interval(s: Sphere, ray_t: Interval, roots: SphereRoots)
    requires
        s.spec_hit(ray_t, roots) is Some,
    ensures
        ray_t.spec_surrounds(s.spec_hit(ray_t, roots)->Some_0.t),
{
}

/// Narrowing the upper bound of the search interval never changes a hit it
/// still admits: a hit reported within the narrowed interval is exactly the
/// hit reported within the wider one.
pub proof fn lemma_hit_narrowing(s: Sphere, low: Scalar, narrow: Scalar, wide: Scalar, roots: SphereRoots)
    requires
        roots.wf(),
        narrow <= wide,
        s.spec_hit(Interval(low, narrow), roots) is Some,
    ensures
        s.spec_hit(Interval(low, narrow), roots) == s.spec_hit(Interval(low, wide), roots),
{
}

/// When a sphere reports nothing within a narrowed interval, any hit it
/// reports within the wider interval lies at or beyond the narrowed upper
/// bound.
pub proof fn lemma_miss_narrowing(s: Sphere, low: Scalar, narrow: Scalar, wide: Scalar, roots: SphereRoots)
    requires
        roots.wf(),
        narrow <= wide,
        s.spec_hit(Interval(low, narrow), roots) is None,
        s.spec_hit(Interval(low, wide), roots) is Some,
    ensures
        s.spec_hit(Interval(low, wide), roots)->Some_0.t >= narrow,
{
}

} // verus!
