//! Hit records and the brute-force closest-hit search over a scene's
//! objects.

use vstd::prelude::*;

use crate::materials::MaterialId;
use crate::math::constants::ZERO;
use crate::math::primitives::sphere::{
    lemma_hit_narrowing, lemma_hit_t_in_interval, lemma_miss_narrowing, Sphere, SphereRoots,
};
use crate::math::types::{Interval, Point3, Scalar, UnitVec3};

verus! {

/// The front face of the surface in relation to the ray: which side the
/// ray struck.
#[derive(Clone, Copy, PartialEq, Eq, Structural, Debug)]
pub enum FrontFace {
    /// The ray struck the surface from outside the volume it bounds.
    Outside,
    /// The ray struck the surface from inside.
    Inside,
}

/// Produced per successful intersection: the ray parameter, the hit point,
/// the unit normal flipped to always oppose the incoming ray, which face
/// was struck, and the material of the struck surface.
#[derive(Clone, Copy, PartialEq, Eq, Structural, Debug)]
pub struct HitRecord {
    /// The ray parameter.
    pub t: Scalar,
    /// The intersection point of the ray.
    pub hit_point: Point3,
    /// The surface normal, flipped to oppose the incoming ray.
    pub normal: UnitVec3,
    /// The front face of the surface in relation to the ray.
    pub front_face: FrontFace,
    /// The material of the struck surface.
    pub material_id: MaterialId,
}

impl HitRecord {
    /// The record for a hit at `t` and `hit_point`, given the outward
    /// surface normal and the code of `dot(ray_direction, outward_normal)`:
    /// a negative dot product means the ray struck the outside face and the
    /// outward normal is kept; otherwise the ray is inside and the normal
    /// is negated, so the stored normal always opposes the ray.
    pub open spec fn spec_new(
        t: Scalar,
        hit_point: Point3,
        outward_normal: UnitVec3,
        dir_dot_outward: Scalar,
        material_id: MaterialId,
    ) -> HitRecord {
        if dir_dot_outward < ZERO {
            HitRecord { t, hit_point, normal: outward_normal, front_face: FrontFace::Outside, material_id }
        } else {
            HitRecord {
                t,
                hit_point,
                normal: outward_normal.spec_neg(),
                front_face: FrontFace::Inside,
                material_id,
            }
        }
    }

    /// Constructs a new `HitRecord`, flipping the outward normal to oppose
    /// the incoming ray. `dir_dot_outward` is the code of the dot product
    /// of the ray direction with the outward normal.
    pub fn new(
        t: Scalar,
        hit_point: Point3,
        outward_normal: UnitVec3,
        dir_dot_outward: Scalar,
        material_id: MaterialId,
    ) -> (r: HitRecord)
        ensures
            r == HitRecord::spec_new(t, hit_point, outward_normal, dir_dot_outward, material_id),
    {
        if dir_dot_outward < ZERO {
            HitRecord { t, hit_point, normal: outward_normal, front_face: FrontFace::Outside, material_id }
        } else {
            HitRecord {
                t,
                hit_point,
                normal: outward_normal.neg(),
                front_face: FrontFace::Inside,
                material_id,
            }
        }
    }
}

/// The code of the dot product of the ray direction with the *stored*
/// normal, given the code `c` of its dot product with the outward normal:
/// when the outward normal is kept the dot product is unchanged, and
/// negating a vector complements the code of any dot product with it.
pub open spec fn spec_stored_normal_dot(c: Scalar) -> Scalar {
    if c < ZERO {
        c
    } else {
        !c
    }
}

/// Front-face invariant: however the flip goes, the stored normal opposes
/// the incoming ray: the dot product of the ray direction with the stored
/// normal is never above `-0.0` in the total order, i.e. never positive.
pub proof fn lemma_front_face_opposes_ray(c: Scalar)
    ensures
        spec_stored_normal_dot(c) < ZERO,
{
    if c >= ZERO {
        assert(!c < ZERO) by (bit_vector)
            requires
                c >= 0x8000_0000_0000_0000u64,
        ;
    }
}

/// The flip direction and the face tag agree: the outward normal is kept
/// exactly on an outside hit.
pub proof fn lemma_front_face_flip(
    t: Scalar,
    hit_point: Point3,
    outward_normal: UnitVec3,
    dir_dot_outward: Scalar,
    material_id: MaterialId,
)
    ensures
        ({
            let r = HitRecord::spec_new(t, hit_point, outward_normal, dir_dot_outward, material_id);
            &&& r.front_face == FrontFace::Outside <==> dir_dot_outward < ZERO
            &&& r.normal == if dir_dot_outward < ZERO {
                outward_normal
            } else {
                outward_normal.spec_neg()
            }
            &&& r.t == t
            &&& r.material_id == material_id
        }),
{
}

/// The list of hittable objects in a scene, searched linearly.
pub struct HittableList {
    objects: Vec<Sphere>,
}

impl View for HittableList {
    type V = Seq<Sphere>;

    closed spec fn view(&self) -> Seq<Sphere> {
        self.objects@
    }
}

/// The hit object `k` reports against interval `ray_t`, given the analytic
/// roots computed for it.
pub open spec fn spec_hit_at(
    objs: Seq<Sphere>,
    ray_t: Interval,
    roots: Seq<SphereRoots>,
    k: int,
) -> Option<HitRecord> {
    objs[k].spec_hit(ray_t, roots[k])
}

/// `k0` witnesses that `rec` is the closest hit among the first `n`
/// objects, ties going to the first-inserted: `rec` is object `k0`'s hit
/// against the full interval, no object's hit has a smaller `t`, and every
/// earlier object's hit has a strictly larger `t`.
pub open spec fn spec_closest_witness(
    objs: Seq<Sphere>,
    ray_t: Interval,
    roots: Seq<SphereRoots>,
    n: int,
    rec: HitRecord,
    k0: int,
) -> bool {
    &&& 0 <= k0 < n
    &&& spec_hit_at(objs, ray_t, roots, k0) == Some(rec)
    &&& forall|j: int|
        0 <= j < n && #[trigger] spec_hit_at(objs, ray_t, roots, j) is Some ==> rec.t <= spec_hit_at(
            objs,
            ray_t,
            roots,
            j,
        )->Some_0.t
    &&& forall|j: int|
        0 <= j < k0 && #[trigger] spec_hit_at(objs, ray_t, roots, j) is Some ==> rec.t < spec_hit_at(
            objs,
            ray_t,
            roots,
            j,
        )->Some_0.t
}

/// The fold the search performs over the first `n` objects: scan in
/// insertion order, keep the best hit so far, and narrow the upper bound of
/// the search interval to its `t` after each successful test.
pub open spec fn spec_scan(
    objs: Seq<Sphere>,
    ray_t: Interval,
    roots: Seq<SphereRoots>,
    n: int,
) -> Option<HitRecord>
    decreases n,
{
    if n <= 0 {
        None
    } else {
        let prev = spec_scan(objs, ray_t, roots, n - 1);
        let cur = match prev {
            None => ray_t,
            Some(b) => Interval(ray_t.0, b.t),
        };
        match objs[n - 1].spec_hit(cur, roots[n - 1]) {
            Some(h) => Some(h),
            None => prev,
        }
    }
}

impl HittableList {
    /// Returns an empty list.
    pub fn new() -> (l: HittableList)
        ensures
            l@ == Seq::<Sphere>::empty(),
    {
        HittableList { objects: Vec::new() }
    }

    /// Appends an object.
    pub fn add(&mut self, o: Sphere)
        ensures
            final(self)@ == old(self)@.push(o),
    {
        self.objects.push(o);
    }

    /// The number of objects.
    pub fn len(&self) -> (n: usize)
        ensures
            n == self@.len(),
    {
        self.objects.len()
    }

    /// The object at index `i`.
    pub fn get(&self, i: usize) -> (s: &Sphere)
        requires
            i < self@.len(),
        ensures
            *s == self@[i as int],
    {
        &self.objects[i]
    }

    /// Iterates through all objects to find the closest hit, narrowing the
    /// upper bound of the search interval to the best `t` after each
    /// successful test.
    ///
    /// `roots` holds the analytic ray/sphere solve for each object in turn.
    /// The result is the hit with the smallest `t` among all objects' hits
    /// within `ray_t`; among objects hitting at exactly equal `t`, the
    /// first-inserted wins, because a later equal `t` fails the narrowed
    /// strict upper bound.
    pub fn hit(&self, ray_t: Interval, roots: &Vec<SphereRoots>) -> (r: Option<HitRecord>)
        requires
            roots@.len() == self@.len(),
            forall|k: int| 0 <= k < roots@.len() ==> (#[trigger] roots@[k]).wf(),
        ensures
            r == spec_scan(self@, ray_t, roots@, self@.len() as int),
            match r {
                None => forall|k: int|
                    0 <= k < self@.len() ==> #[trigger] spec_hit_at(self@, ray_t, roots@, k) is None,
                Some(rec) => exists|k0: int| #[trigger] spec_closest_witness(
                    self@,
                    ray_t,
                    roots@,
                    self@.len() as int,
                    rec,
                    k0,
                ),
            },
    {
        let ghost objs = self@;
        let ghost rootss = roots@;
        let mut record: Option<HitRecord> = None;
        let mut cur: Interval = ray_t;
        let n = self.objects.len();
        for i in 0..n
            invariant
                n == objs.len(),
                rootss.len() == objs.len(),
                objs == self@,
                rootss == roots@,
                forall|k: int| 0 <= k < rootss.len() ==> (#[trigger] rootss[k]).wf(),
                record == spec_scan(objs, ray_t, rootss, i as int),
                cur == match record {
                    None => ray_t,
                    Some(b) => Interval(ray_t.0, b.t),
                },
        {
            match self.objects[i].hit(cur, &roots[i]) {
                Some(h) => {
                    cur = Interval(ray_t.0, h.t);
                    record = Some(h);
                },
                None => {},
            }
        }
        proof {
            lemma_scan_closest(objs, ray_t, rootss, objs.len() as int);
        }
        record
    }
}

impl Default for HittableList {
    /// Returns an empty list.
    fn default() -> (l: HittableList)
        ensures
            l@ == Seq::<Sphere>::empty(),
    {
        HittableList::new()
    }
}

/// The scan over the first `n` objects returns the closest hit within
/// `ray_t`, ties going to the first-inserted object: when it returns a
/// record, that record is some object's hit against the *full* interval, no
/// object's hit has a smaller `t`, and every earlier object's hit has a
/// strictly larger `t`; when it returns nothing, no object hits within
/// `ray_t` at all.
pub proof fn lemma_scan_closest(objs: Seq<Sphere>, ray_t: Interval, roots: Seq<SphereRoots>, n: int)
    requires
        0 <= n <= objs.len(),
        roots.len() == objs.len(),
        forall|k: int| 0 <= k < roots.len() ==> (#[trigger] roots[k]).wf(),
    ensures
        match spec_scan(objs, ray_t, roots, n) {
            None => forall|k: int| 0 <= k < n ==> #[trigger] spec_hit_at(objs, ray_t, roots, k) is None,
            Some(rec) => exists|k0: int| #[trigger] spec_closest_witness(objs, ray_t, roots, n, rec, k0),
        },
    decreases n,
{
    if n > 0 {
        lemma_scan_closest(objs, ray_t, roots, n - 1);
        let prev = spec_scan(objs, ray_t, roots, n - 1);
        match prev {
            None => {
                // No earlier object hits; object n-1 is tested against the
                // full interval.
                match objs[n - 1].spec_hit(ray_t, roots[n - 1]) {
                    Some(h) => {
                        assert(spec_hit_at(objs, ray_t, roots, n - 1) == Some(h));
                        assert(spec_closest_witness(objs, ray_t, roots, n, h, n - 1));
                    },
                    None => {
                        assert(spec_hit_at(objs, ray_t, roots, n - 1) is None);
                    },
                }
            },
            Some(b) => {
                let cur = Interval(ray_t.0, b.t);
                let bk = choose|k0: int| #[trigger] spec_closest_witness(objs, ray_t, roots, n - 1, b, k0);
                lemma_hit_t_in_interval(objs[bk], ray_t, roots[bk]);
                match objs[n - 1].spec_hit(cur, roots[n - 1]) {
                    Some(h) => {
                        // The new hit improves on the best: its t lies
                        // strictly below the narrowed bound b.t, and it is
                        // the same hit the full interval reports.
                        lemma_hit_narrowing(objs[n - 1], ray_t.0, b.t, ray_t.1, roots[n - 1]);
                        lemma_hit_t_in_interval(objs[n - 1], cur, roots[n - 1]);
                        assert(spec_hit_at(objs, ray_t, roots, n - 1) == Some(h));
                        assert(h.t < b.t);
                        assert forall|j: int|
                            0 <= j < n && #[trigger] spec_hit_at(objs, ray_t, roots, j) is Some implies h.t
                            <= spec_hit_at(objs, ray_t, roots, j)->Some_0.t by {
                            if j < n - 1 {
                                assert(b.t <= spec_hit_at(objs, ray_t, roots, j)->Some_0.t);
                            }
                        }
                        assert(spec_closest_witness(objs, ray_t, roots, n, h, n - 1));
                    },
                    None => {
                        // Object n-1 either misses outright, or any hit it
                        // has against the full interval lies at or beyond
                        // b.t; the best so far stands.
                        if spec_hit_at(objs, ray_t, roots, n - 1) is Some {
                            lemma_miss_narrowing(objs[n - 1], ray_t.0, b.t, ray_t.1, roots[n - 1]);
                        }
                        assert(spec_closest_witness(objs, ray_t, roots, n, b, bk));
                    },
                }
            },
        }
    }
}

} // verus!
