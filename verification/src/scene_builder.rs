//! Assembling a world from declarative scene descriptors.
//!
//! A scene description declares materials under ids of its own choosing and
//! primitives that reference them. Assembly inserts the materials into a
//! fresh registry in declaration order and rewrites every primitive's
//! reference to the id the registry issued; a reference no declaration
//! covers is a fatal misconfiguration. Reading and deserializing the
//! description file is I/O on the caller's side of the boundary.

use vstd::prelude::*;

use crate::materials::{Material, MaterialId};
use crate::math::primitives::sphere::Sphere;
use crate::math::primitives::PrimitiveDeExtension;
use crate::world::World;

verus! {

/// Assembles worlds from declarative scene descriptions.
pub struct SceneBuilder;

/// Errors surfaced while loading a scene description.
#[derive(Clone, PartialEq, Debug)]
pub enum Error {
    /// The description file could not be read.
    FileReadError(String),
    /// The description did not deserialize.
    ConfigDeError(String),
}

/// The registry id the declaration list assigns to the declared id `d`: the
/// index of its last declaration, since a registry built by inserting the
/// declarations in order issues ids equal to indices, and a later
/// declaration of the same id shadows an earlier one.
pub open spec fn spec_resolve_id(mats: Seq<(MaterialId, Material)>, d: MaterialId) -> Option<int>
    decreases mats.len(),
{
    if mats.len() == 0 {
        None
    } else if mats.last().0 == d {
        Some(mats.len() - 1)
    } else {
        spec_resolve_id(mats.drop_last(), d)
    }
}

/// What the assigned index means: it is in range, it declares `d`, and no
/// later declaration does; and when nothing is assigned, no declaration
/// covers `d` at all.
pub proof fn lemma_resolve_id_props(mats: Seq<(MaterialId, Material)>, d: MaterialId)
    ensures
        match spec_resolve_id(mats, d) {
            None => forall|l: int| 0 <= l < mats.len() ==> (#[trigger] mats[l]).0 != d,
            Some(j) => {
                &&& 0 <= j < mats.len()
                &&& mats[j].0 == d
                &&& forall|l: int| j < l < mats.len() ==> (#[trigger] mats[l]).0 != d
            },
        },
    decreases mats.len(),
{
    if mats.len() > 0 {
        lemma_resolve_id_props(mats.drop_last(), d);
        assert(forall|l: int| 0 <= l < mats.len() - 1 ==> mats.drop_last()[l] == #[trigger] mats[l]);
    }
}

/// Finds the index of the last declaration of `d`, scanning backwards.
fn find_declared(materials: &Vec<(MaterialId, Material)>, d: MaterialId) -> (r: Option<usize>)
    ensures
        match r {
            Some(j) => spec_resolve_id(materials@, d) == Some(j as int),
            None => spec_resolve_id(materials@, d) is None,
        },
{
    let ghost all = materials@;
    proof {
        assert(all.take(all.len() as int) =~= all);
    }
    let mut j = materials.len();
    while j > 0
        invariant
            all == materials@,
            j <= all.len(),
            spec_resolve_id(all, d) == spec_resolve_id(all.take(j as int), d),
        decreases j,
    {
        j = j - 1;
        if materials[j].0 == d {
            proof {
                assert(all.take(j + 1).last() == all[j as int]);
            }
            return Some(j);
        }
        proof {
            assert(all.take(j + 1).drop_last() =~= all.take(j as int));
        }
    }
    proof {
        assert(all.take(0) =~= Seq::<(MaterialId, Material)>::empty());
    }
    None
}

impl SceneBuilder {
    /// Assembles a world: the materials enter a fresh registry in
    /// declaration order, and each sphere is added with its declared
    /// material reference rewritten to the registry id of that reference's
    /// last declaration. Returns `None` exactly when some sphere references
    /// an id no material declares; the world returned otherwise is
    /// well-formed, so rendering it never aborts on a material lookup.
    pub fn resolve(materials: &Vec<(MaterialId, Material)>, spheres: &Vec<Sphere>) -> (w: Option<
        World,
    >)
        requires
            materials@.len() < u32::MAX,
        ensures
            match w {
                None => exists|k: int|
                    0 <= k < spheres@.len() && spec_resolve_id(
                        materials@,
                        (#[trigger] spheres@[k]).spec_material_id(),
                    ) is None,
                Some(world) => {
                    &&& world.spec_materials() == materials@.map_values(
                        |p: (MaterialId, Material)| p.1,
                    )
                    &&& world.spec_objects().len() == spheres@.len()
                    &&& forall|k: int|
                        0 <= k < spheres@.len() ==> spec_resolve_id(
                            materials@,
                            (#[trigger] spheres@[k]).spec_material_id(),
                        ) is Some
                    &&& forall|k: int|
                        0 <= k < spheres@.len() ==> #[trigger] world.spec_objects()[k] == spheres@[k].spec_with_material_id(
                            MaterialId(
                                spec_resolve_id(
                                    materials@,
                                    spheres@[k].spec_material_id(),
                                )->Some_0 as u32,
                            ),
                        )
                    &&& world.spec_well_formed()
                },
            },
    {
        let ghost mats = materials@;
        let ghost sps = spheres@;
        let mut world = World::new();
        let n = materials.len();
        let mut idx: usize = 0;
        while idx < n
            invariant
                mats == materials@,
                n == mats.len(),
                n < u32::MAX,
                idx <= n,
                world.spec_objects().len() == 0,
                world.spec_materials().len() == idx,
                forall|l: int| 0 <= l < idx ==> #[trigger] world.spec_materials()[l] == mats[l].1,
            decreases n - idx,
        {
            let _ = world.add_material(materials[idx].1);
            idx = idx + 1;
        }
        proof {
            assert(world.spec_materials() =~= mats.map_values(|p: (MaterialId, Material)| p.1));
        }
        let m = spheres.len();
        let mut k: usize = 0;
        while k < m
            invariant
                mats == materials@,
                sps == spheres@,
                n == mats.len(),
                n < u32::MAX,
                m == sps.len(),
                k <= m,
                world.spec_materials() == mats.map_values(|p: (MaterialId, Material)| p.1),
                world.spec_objects().len() == k,
                forall|l: int|
                    0 <= l < k ==> spec_resolve_id(
                        mats,
                        (#[trigger] sps[l]).spec_material_id(),
                    ) is Some,
                forall|l: int|
                    0 <= l < k ==> #[trigger] world.spec_objects()[l] == sps[l].spec_with_material_id(
                        MaterialId(spec_resolve_id(mats, sps[l].spec_material_id())->Some_0 as u32),
                    ),
            decreases m - k,
        {
            let declared = spheres[k].material_id();
            match find_declared(materials, declared) {
                None => {
                    return None;
                },
                Some(j) => {
                    proof {
                        lemma_resolve_id_props(mats, declared);
                    }
                    let rewritten = spheres[k].with_material_id(MaterialId(j as u32));
                    world.add_object(rewritten);
                },
            }
            k = k + 1;
        }
        proof {
            assert forall|l: int| 0 <= l < m implies (#[trigger] world.spec_objects()[l]).spec_material_id().0
                < world.spec_materials().len() by {
                let id = MaterialId(
                    spec_resolve_id(mats, sps[l].spec_material_id())->Some_0 as u32,
                );
                crate::math::primitives::sphere::lemma_with_material_id(sps[l], id);
                lemma_resolve_id_props(mats, sps[l].spec_material_id());
            }
        }
        Some(world)
    }
}

} // verus!
