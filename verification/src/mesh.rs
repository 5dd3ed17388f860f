//! The instances that the scene graph tracks and the renderer resources
//! that stand for them.

use vstd::prelude::*;
use crate::transform::InstanceTransform;

verus! {

/// Identifier that the renderer gave to a loaded mesh.
#[derive(Clone, Copy, Debug, PartialEq, Eq, Hash, Structural)]
pub struct MeshHandle(pub usize);

/// Identifier that the renderer gave to an instance of a mesh.
#[derive(Clone, Copy, Debug, PartialEq, Eq, Hash, Structural)]
pub struct InstanceHandle(pub usize);

/// Where a tracked instance comes from. The variant alone decides which
/// registry holds its binding; the number inside is the key there.
#[derive(Clone, Copy, Debug, PartialEq, Eq, Hash, Structural)]
pub enum MeshInstanceType {
    /// Spawned at run time; the number is the entity's identity.
    UserInstanced(u64),
    /// Declared in the scene description; the number is its index there.
    SceneInstanced(usize),
}

impl MeshInstanceType {
    /// The key of this instance in the registry of its own kind.
    pub open spec fn spec_key(self) -> u64 {
        match self {
            MeshInstanceType::UserInstanced(entity) => entity,
            MeshInstanceType::SceneInstanced(index) => index as u64,
        }
    }

    /// The key of this instance in the registry of its own kind.
    pub fn key(&self) -> (k: u64)
        ensures
            k == self.spec_key(),
    {
        match self {
            MeshInstanceType::UserInstanced(entity) => *entity,
            MeshInstanceType::SceneInstanced(index) => *index as u64,
        }
    }
}

/// Two instances of one kind with the same key are the same instance, so a
/// registry keyed by `spec_key` never holds two instances under one key.
pub proof fn lemma_key_injective(a: MeshInstanceType, b: MeshInstanceType)
    requires
        a is SceneInstanced <==> b is SceneInstanced,
        a.spec_key() == b.spec_key(),
    ensures
        a == b,
{
}

/// One tracked scene object, as seen in the current frame.
#[derive(Clone, Debug, PartialEq, Eq)]
pub struct MeshInstanceExtracted {
    pub instance_type: MeshInstanceType,
    pub mesh_name: String,
    pub transform: InstanceTransform,
}

/// The components spawned for one tracked scene object.
#[derive(Clone, Debug, PartialEq, Eq)]
pub struct MeshInstanceExtractedBundle {
    pub mesh_instance: MeshInstanceExtracted,
}

/// What the renderer holds for one tracked scene object.
#[derive(Clone, Copy, Debug, PartialEq, Eq, Structural)]
pub struct RenderInstance {
    pub instance_handle: InstanceHandle,
    pub mesh_handle: MeshHandle,
    /// The transform last pushed to the renderer for this instance.
    pub transform: InstanceTransform,
}

} // verus!
