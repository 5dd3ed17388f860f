//! What the bookkeeping asks of the renderer, and what it reports when the
//! renderer cannot deliver.

use vstd::prelude::*;
use vstd::string::*;
use crate::mesh::{InstanceHandle, MeshHandle};
use crate::transform::InstanceTransform;

verus! {

/// One call that the renderer is to carry out.
#[derive(Clone, Debug, PartialEq, Eq)]
pub enum RenderRequest {
    /// Move an instance that the renderer already holds.
    SetInstanceTransform { instance_handle: InstanceHandle, transform: InstanceTransform },
    /// Load the baked mesh stored at `path`.
    AddBakedMesh { path: String },
    /// Create an instance of a loaded mesh.
    AddInstance { mesh_handle: MeshHandle, transform: InstanceTransform },
}

/// A `RenderRequest` with its path as a sequence of characters.
pub enum RenderRequestView {
    SetInstanceTransform { instance_handle: InstanceHandle, transform: InstanceTransform },
    AddBakedMesh { path: Seq<char> },
    AddInstance { mesh_handle: MeshHandle, transform: InstanceTransform },
}

impl View for RenderRequest {
    type V = RenderRequestView;

    open spec fn view(&self) -> RenderRequestView {
        match *self {
            RenderRequest::SetInstanceTransform { instance_handle, transform } =>
                RenderRequestView::SetInstanceTransform { instance_handle, transform },
            RenderRequest::AddBakedMesh { path } => RenderRequestView::AddBakedMesh {
                path: path@,
            },
            RenderRequest::AddInstance { mesh_handle, transform } =>
                RenderRequestView::AddInstance { mesh_handle, transform },
        }
    }
}

/// Where the baked form of the mesh called `mesh_name` is stored.
pub open spec fn spec_baked_mesh_path(mesh_name: Seq<char>) -> Seq<char> {
    "/baked/"@ + mesh_name + ".mesh"@
}

/// Where the baked form of the mesh called `mesh_name` is stored:
/// `/baked/<mesh_name>.mesh`.
pub fn baked_mesh_path(mesh_name: &str) -> (path: String)
    ensures
        path@ == spec_baked_mesh_path(mesh_name@),
{
    let mut path = String::from_str("/baked/");
    path.append(mesh_name);
    path.append(".mesh");
    path
}

/// A tracked instance names a mesh that has no baked form.
#[derive(Clone, Debug, PartialEq, Eq)]
pub struct MeshLoadError {
    /// The name of the mesh that could not be loaded.
    pub mesh_name: String,
}

impl MeshLoadError {
    /// The report for a missing mesh called `mesh_name`.
    pub open spec fn spec_message(mesh_name: Seq<char>) -> Seq<char> {
        "Kajiya error: could not find baked mesh "@ + mesh_name
    }

    /// A sentence that names the missing mesh.
    pub fn message(&self) -> (text: String)
        ensures
            text@ == MeshLoadError::spec_message(self.mesh_name@),
    {
        let mut text = String::from_str("Kajiya error: could not find baked mesh ");
        text.append(self.mesh_name.as_str());
        text
    }
}

} // verus!
