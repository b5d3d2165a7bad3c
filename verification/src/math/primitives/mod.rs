//! Primitives module.

use vstd::prelude::*;

use crate::materials::MaterialId;

pub mod sphere;

verus! {

/// A marker trait for geometric primitives.
pub trait Primitive {
}

/// Extension trait for primitives whose material reference is rewritten
/// when a scene is assembled from declarative descriptors.
pub trait PrimitiveDeExtension: Sized {
    /// The material reference this primitive carries.
    spec fn spec_material_id(&self) -> MaterialId;

    /// The same primitive with its material reference replaced by `id`.
    spec fn spec_with_material_id(self, id: MaterialId) -> Self;

    /// Returns the material reference.
    fn material_id(&self) -> (r: MaterialId)
        ensures
            r == self.spec_material_id(),
    ;

    /// Replaces the material reference by `id`.
    fn with_material_id(self, id: MaterialId) -> (r: Self)
        ensures
            r == self.spec_with_material_id(id),
    ;
}

} // verus!
