//! Render-side components.
use vstd::prelude::*;

use crate::framework::Component;

verus! {

/// An entity drawn with a named mesh and material. The renderer fills in the
/// resolved ids once it has loaded them.
#[derive(Debug)]
pub struct StaticMeshInstance {
    pub mesh_name: String,
    pub material_name: String,
    mesh_id: Option<u64>,
    material_id: Option<u64>,
}

impl StaticMeshInstance {
    /// The name of the mesh drawn.
    pub closed spec fn spec_mesh_name(&self) -> String {
        self.mesh_name
    }

    /// The name of the material drawn with.
    pub closed spec fn spec_material_name(&self) -> String {
        self.material_name
    }

    /// The resolved mesh id, once the renderer has loaded it.
    pub closed spec fn spec_mesh_id(&self) -> Option<u64> {
        self.mesh_id
    }

    /// The resolved material id, once the renderer has loaded it.
    pub closed spec fn spec_material_id(&self) -> Option<u64> {
        self.material_id
    }

    /// An instance of the named mesh and material, not resolved yet.
    pub fn new(mesh_name: String, material_name: String) -> (r: Self)
        ensures
            r.spec_mesh_name() == mesh_name,
            r.spec_material_name() == material_name,
            r.spec_mesh_id() is None,
            r.spec_material_id() is None,
    {
        StaticMeshInstance { mesh_name, material_name, mesh_id: None, material_id: None }
    }
}

impl Component for StaticMeshInstance {}

} // verus!
