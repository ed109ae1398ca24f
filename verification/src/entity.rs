//! Entities: a named mesh with a referenced material.

use std::rc::Rc;
use vstd::prelude::*;
use crate::material::Material;
use crate::mesh::deinterleaved::DeinterleavedIndexedMeshBuf;

verus! {

pub struct Entity<S> {
    pub name: String,
    /// References the one material associated with this entity, more is not permitted by now.
    /// The reference is possibly shared and the contained material may not be directly mutated.
    /// The reference itself can be set to a new material however
    pub material: Rc<Material>,
    /// The geometry of the entity, represented as an indexed triangle mesh.
    pub mesh: DeinterleavedIndexedMeshBuf<S>,
}

impl<S> Entity<S> {
    /// An entity that owns `mesh` and holds on to `material`, which other
    /// holders of the reference keep sharing.
    pub fn new(mesh: DeinterleavedIndexedMeshBuf<S>, name: &str, material: Rc<Material>) -> (entity:
        Self)
        ensures
            entity.mesh == mesh,
            entity.name@ == name@,
            entity.material == material,
    {
        Entity { mesh, name: name.to_owned(), material }
    }
}

} // verus!
