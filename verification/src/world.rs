//! The world stores all scene objects and materials.

use vstd::prelude::*;

use crate::hittable::{spec_closest_witness, spec_hit_at, spec_scan, HitRecord, HittableList};
use crate::materials::{Material, MaterialId, MaterialMap};
use crate::math::primitives::sphere::{Sphere, SphereRoots};
use crate::math::primitives::PrimitiveDeExtension;
use crate::math::types::Interval;

verus! {

/// The scene: an ordered collection of primitives and the registry of
/// their materials. Built once, then immutable and shared read-only during
/// rendering.
pub struct World {
    /// The list of hittable objects in the world.
    objects: HittableList,
    /// The map of materials in the world.
    materials: MaterialMap,
}

impl World {
    /// The objects of the world, in insertion order.
    pub closed spec fn spec_objects(self) -> Seq<Sphere> {
        self.objects@
    }

    /// The materials of the world, indexed by the ids the registry issued.
    pub closed spec fn spec_materials(self) -> Seq<Material> {
        self.materials@
    }

    /// Every object's material reference resolves in the registry; a
    /// renderer never aborts on a world with this property.
    pub open spec fn spec_well_formed(self) -> bool {
        forall|k: int|
            0 <= k < self.spec_objects().len() ==> (#[trigger] self.spec_objects()[k]).spec_material_id().0
                < self.spec_materials().len()
    }

    /// Returns an empty world.
    pub fn new() -> (w: World)
        ensures
            w.spec_objects() == Seq::<Sphere>::empty(),
            w.spec_materials() == Seq::<Material>::empty(),
    {
        World { objects: HittableList::new(), materials: MaterialMap::new() }
    }

    /// Adds an object to the world.
    pub fn add_object(&mut self, o: Sphere)
        ensures
            final(self).spec_objects() == old(self).spec_objects().push(o),
            final(self).spec_materials() == old(self).spec_materials(),
    {
        self.objects.add(o);
    }

    /// Adds a material to the world, returning the id the registry issued.
    pub fn add_material(&mut self, material: Material) -> (id: MaterialId)
        requires
            old(self).spec_materials().len() < u32::MAX,
        ensures
            id == (MaterialId(old(self).spec_materials().len() as u32)),
            final(self).spec_materials() == old(self).spec_materials().push(material),
            final(self).spec_objects() == old(self).spec_objects(),
    {
        self.materials.insert(material)
    }

    /// Returns an immutable reference to hittable objects.
    pub fn objects(&self) -> (o: &HittableList)
        ensures
            o@ == self.spec_objects(),
    {
        &self.objects
    }

    /// Returns an immutable reference to materials.
    pub fn materials(&self) -> (m: &MaterialMap)
        ensures
            m@ == self.spec_materials(),
    {
        &self.materials
    }

    /// Finds the closest hit among all objects within `ray_t`, ties going
    /// to the first-inserted object; `roots` holds the analytic ray/sphere
    /// solve for each object in turn.
    pub fn hit(&self, ray_t: Interval, roots: &Vec<SphereRoots>) -> (r: Option<HitRecord>)
        requires
            roots@.len() == self.spec_objects().len(),
            forall|k: int| 0 <= k < roots@.len() ==> (#[trigger] roots@[k]).wf(),
        ensures
            r == spec_scan(self.spec_objects(), ray_t, roots@, self.spec_objects().len() as int),
            match r {
                None => forall|k: int|
                    0 <= k < self.spec_objects().len() ==> #[trigger] spec_hit_at(
                        self.spec_objects(),
                        ray_t,
                        roots@,
                        k,
                    ) is None,
                Some(rec) => exists|k0: int| #[trigger] spec_closest_witness(
                    self.spec_objects(),
                    ray_t,
                    roots@,
                    self.spec_objects().len() as int,
                    rec,
                    k0,
                ),
            },
    {
        self.objects.hit(ray_t, roots)
    }
}

impl Default for World {
    /// Returns an empty world.
    fn default() -> (w: World)
        ensures
            w.spec_objects() == Seq::<Sphere>::empty(),
            w.spec_materials() == Seq::<Material>::empty(),
    {
        World::new()
    }
}

/// A hit returned for a well-formed world always carries a material
/// reference the registry resolves: the renderer's material lookup cannot
/// fail.
pub proof fn lemma_world_hit_resolves(w: World, ray_t: Interval, roots: Seq<SphereRoots>, rec: HitRecord)
    requires
        w.spec_well_formed(),
        exists|k0: int| #[trigger] spec_closest_witness(
            w.spec_objects(),
            ray_t,
            roots,
            w.spec_objects().len() as int,
            rec,
            k0,
        ),
    ensures
        rec.material_id.0 < w.spec_materials().len(),
{
    let k0 = choose|k0: int| #[trigger] spec_closest_witness(
        w.spec_objects(),
        ray_t,
        roots,
        w.spec_objects().len() as int,
        rec,
        k0,
    );
    assert(spec_hit_at(w.spec_objects(), ray_t, roots, k0) == Some(rec));
    assert(rec.material_id == w.spec_objects()[k0].spec_material_id());
}

} // verus!
