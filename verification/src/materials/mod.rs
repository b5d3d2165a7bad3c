//! Materials: opaque handles, the closed set of material behaviors, and the
//! per-scene material registry.

use vstd::prelude::*;

pub mod diffuse;
pub mod lambertian;
pub mod metal;
pub mod normals;

pub use diffuse::Diffuse;
pub use lambertian::Lambertian;
pub use metal::Metal;
pub use normals::Normals;

verus! {

/// An opaque handle into a scene's material registry, assigned monotonically
/// at insertion time. Ids are never reused and are not meaningful outside
/// the registry that issued them.
#[derive(Clone, Copy, PartialEq, Eq, Structural, Hash, Debug)]
pub struct MaterialId(pub u32);

/// The closed set of material behaviors, dispatched by pattern match.
///
/// A material either scatters the incoming ray (returning an attenuation
/// color and a new ray) or terminates the path and emits a color. Which of
/// the two happens is decided here; the scattered direction and the emitted
/// color themselves are floating-point work done by the caller holding the
/// doubles.
#[derive(Clone, Copy, PartialEq, Eq, Structural, Debug)]
pub enum Material {
    Diffuse(Diffuse),
    Lambertian(Lambertian),
    Metal(Metal),
    Normals(Normals),
}

impl Material {
    /// Whether this material scatters: every behavior does, except the
    /// debug [`Normals`] material, which always terminates the path and
    /// emits the remapped surface normal.
    pub open spec fn spec_scatters(self) -> bool {
        !(self is Normals)
    }

    /// Returns `true` if a surface with this material scatters the
    /// incoming ray, `false` if it terminates the path and emits.
    pub fn scatters(&self) -> (b: bool)
        ensures
            b == self.spec_scatters(),
    {
        !(matches!(self, Material::Normals(_)))
    }
}

/// The per-scene material registry. Ids are issued monotonically from zero,
/// so the registry is a sequence indexed by the ids it has handed out.
pub struct MaterialMap {
    mats: Vec<Material>,
}

impl View for MaterialMap {
    type V = Seq<Material>;

    closed spec fn view(&self) -> Seq<Material> {
        self.mats@
    }
}

impl MaterialMap {
    /// Returns an empty registry.
    pub fn new() -> (m: MaterialMap)
        ensures
            m@ == Seq::<Material>::empty(),
    {
        MaterialMap { mats: Vec::new() }
    }

    /// Inserts a material and returns the fresh id assigned to it: the next
    /// value of the registry's monotonic counter.
    pub fn insert(&mut self, material: Material) -> (id: MaterialId)
        requires
            old(self)@.len() < u32::MAX,
        ensures
            id == (MaterialId(old(self)@.len() as u32)),
            final(self)@ == old(self)@.push(material),
    {
        let id = MaterialId(self.mats.len() as u32);
        self.mats.push(material);
        id
    }

    /// Looks up a material by id: `Some` exactly when the registry issued
    /// the id.
    pub fn get(&self, id: MaterialId) -> (m: Option<&Material>)
        ensures
            match m {
                Some(mat) => id.0 < self@.len() && *mat == self@[id.0 as int],
                None => id.0 >= self@.len(),
            },
    {
        if (id.0 as usize) < self.mats.len() {
            Some(&self.mats[id.0 as usize])
        } else {
            None
        }
    }

    /// The number of materials the registry holds.
    pub fn len(&self) -> (n: usize)
        ensures
            n == self@.len(),
    {
        self.mats.len()
    }
}

impl Default for MaterialMap {
    /// Returns an empty registry.
    fn default() -> (m: MaterialMap)
        ensures
            m@ == Seq::<Material>::empty(),
    {
        MaterialMap { mats: Vec::new() }
    }
}

} // verus!
