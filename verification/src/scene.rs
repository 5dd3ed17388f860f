//! Setting up a scene from its description and keeping the renderer in step
//! with the tracked instances, one instance at a time.
//!
//! The renderer itself is not reached from here. Each step returns the call
//! that is to be made on it; the caller makes the call and reports the answer
//! to the next step.

use vstd::prelude::*;
use vstd::string::*;
use crate::mesh::{
    InstanceHandle,
    MeshHandle,
    MeshInstanceExtracted,
    MeshInstanceExtractedBundle,
    MeshInstanceType,
    RenderInstance,
};
use crate::registry::{Registries, RenderInstances};
use crate::renderer::{
    baked_mesh_path,
    spec_baked_mesh_path,
    MeshLoadError,
    RenderRequest,
    RenderRequestView,
};
use crate::transform::{InstanceTransform, Position, Rotation, ONE_BITS};

verus! {

/// Which scene to show and how its global illumination is scaled.
#[derive(Clone, Debug, PartialEq, Eq)]
pub struct KajiyaSceneDescriptor {
    pub scene_name: String,
    /// Bit pattern of the scale, a single-precision number.
    pub gi_volume_scale: u32,
}

impl Default for KajiyaSceneDescriptor {
    /// The scene `car`, its global illumination scaled by `1.0`.
    fn default() -> (descriptor: KajiyaSceneDescriptor)
        ensures
            descriptor.scene_name@ == "car"@,
            descriptor.gi_volume_scale == ONE_BITS,
    {
        KajiyaSceneDescriptor { scene_name: String::from_str("car"), gi_volume_scale: ONE_BITS }
    }
}

impl KajiyaSceneDescriptor {
    /// Where the description of the scene called `scene_name` is stored.
    pub open spec fn spec_scene_file(scene_name: Seq<char>) -> Seq<char> {
        "assets/scenes/"@ + scene_name + ".ron"@
    }

    /// Where the description of this scene is stored:
    /// `assets/scenes/<scene_name>.ron`.
    pub fn scene_file(&self) -> (path: String)
        ensures
            path@ == KajiyaSceneDescriptor::spec_scene_file(self.scene_name@),
    {
        let mut path = String::from_str("assets/scenes/");
        path.append(self.scene_name.as_str());
        path.append(".ron");
        path
    }
}

/// The renderer handles of a scene object, each absent until the renderer
/// has handed it out.
#[derive(Clone, Copy, Debug, PartialEq, Eq)]
pub struct MeshInstanceHandles {
    instance_handle: Option<InstanceHandle>,
    mesh_handle: Option<MeshHandle>,
}

impl MeshInstanceHandles {
    /// The handle of the instance, if it has been created.
    pub closed spec fn spec_instance_handle(self) -> Option<InstanceHandle> {
        self.instance_handle
    }

    /// The handle of the mesh, if it has been loaded.
    pub closed spec fn spec_mesh_handle(self) -> Option<MeshHandle> {
        self.mesh_handle
    }

    /// Handles as given.
    pub fn new(instance_handle: Option<InstanceHandle>, mesh_handle: Option<MeshHandle>) -> (handles:
        MeshInstanceHandles)
        ensures
            handles.spec_instance_handle() == instance_handle,
            handles.spec_mesh_handle() == mesh_handle,
    {
        MeshInstanceHandles { instance_handle, mesh_handle }
    }

    /// The handles that a binding holds, or none where there is no binding.
    pub fn of_binding(binding: Option<RenderInstance>) -> (handles: MeshInstanceHandles)
        ensures
            handles.spec_instance_handle() == (match binding {
                Some(bound) => Some(bound.instance_handle),
                None => None,
            }),
            handles.spec_mesh_handle() == (match binding {
                Some(bound) => Some(bound.mesh_handle),
                None => None,
            }),
    {
        match binding {
            Some(bound) => MeshInstanceHandles {
                instance_handle: Some(bound.instance_handle),
                mesh_handle: Some(bound.mesh_handle),
            },
            None => MeshInstanceHandles { instance_handle: None, mesh_handle: None },
        }
    }

    /// The handle of the instance, if it has been created.
    pub fn instance_handle(&self) -> (handle: Option<InstanceHandle>)
        ensures
            handle == self.spec_instance_handle(),
    {
        self.instance_handle
    }

    /// The handle of the mesh, if it has been loaded.
    pub fn mesh_handle(&self) -> (handle: Option<MeshHandle>)
        ensures
            handle == self.spec_mesh_handle(),
    {
        self.mesh_handle
    }
}

/// The transform of a scene object, absent until one is known.
#[derive(Clone, Copy, Debug, PartialEq, Eq)]
pub struct MeshInstanceTransform {
    pub transform: Option<InstanceTransform>,
}

/// The file that holds the baked mesh of a scene object.
#[derive(Clone, Debug, PartialEq, Eq)]
pub struct MeshInstanceBaked {
    file_name: String,
}

impl View for MeshInstanceBaked {
    type V = Seq<char>;

    /// The name of the file.
    closed spec fn view(&self) -> Seq<char> {
        self.file_name@
    }
}

impl MeshInstanceBaked {
    /// The baked file of the mesh called `mesh_name`, under the path that the
    /// renderer loads it from.
    pub fn of_mesh(mesh_name: &str) -> (baked: MeshInstanceBaked)
        ensures
            baked@ == spec_baked_mesh_path(mesh_name@),
    {
        MeshInstanceBaked { file_name: baked_mesh_path(mesh_name) }
    }

    /// The name of the file.
    pub fn file_name(&self) -> (name: &String)
        ensures
            name@ == self@,
    {
        &self.file_name
    }
}

/// The components of a scene object that the renderer shows.
#[derive(Clone, Debug, PartialEq, Eq)]
pub struct SceneMeshInstanceExtracted {
    pub handles: MeshInstanceHandles,
    pub transform: MeshInstanceTransform,
    pub baked: MeshInstanceBaked,
}

/// One instance as the scene description declares it.
#[derive(Clone, Debug, PartialEq, Eq)]
pub struct SceneInstanceDesc {
    pub position: [u32; 3],
    pub mesh: String,
}

/// A scene description: its instances, in the order of declaration.
#[derive(Clone, Debug, PartialEq, Eq)]
pub struct SceneDesc {
    pub instances: Vec<SceneInstanceDesc>,
}

/// Whether `extracted` is how the instance declared as `desc` at place
/// `index` of a scene description enters the bookkeeping: keyed by its index,
/// with the declared mesh, at the declared position, not rotated.
pub open spec fn tracks_declared(
    extracted: MeshInstanceExtracted,
    index: int,
    desc: SceneInstanceDesc,
) -> bool {
    &&& extracted.instance_type == MeshInstanceType::SceneInstanced(index as usize)
    &&& extracted.mesh_name@ == desc.mesh@
    &&& extracted.transform == InstanceTransform {
        position: Position::spec_from_array(desc.position),
        rotation: Rotation::spec_identity(),
    }
}

/// Starts the bookkeeping for a scene: the instances to track, one for each
/// declared instance and in the same order, and registries without bindings.
pub fn setup_scene_view(scene_desc: &SceneDesc) -> (setup: (
    Vec<MeshInstanceExtractedBundle>,
    RenderInstances,
))
    ensures
        setup.0@.len() == scene_desc.instances@.len(),
        forall|i: int|
            0 <= i < setup.0@.len() ==> tracks_declared(
                #[trigger] setup.0@[i].mesh_instance,
                i,
                scene_desc.instances@[i],
            ),
        setup.1@ == Registries::empty(),
{
    let mut scene_instances: Vec<MeshInstanceExtractedBundle> = Vec::new();
    let mut indx: usize = 0;
    while indx < scene_desc.instances.len()
        invariant
            indx <= scene_desc.instances@.len(),
            scene_instances@.len() == indx,
            forall|i: int|
                0 <= i < indx ==> tracks_declared(
                    #[trigger] scene_instances@[i].mesh_instance,
                    i,
                    scene_desc.instances@[i],
                ),
        decreases scene_desc.instances@.len() - indx,
    {
        let instance = &scene_desc.instances[indx];
        scene_instances.push(
            MeshInstanceExtractedBundle {
                mesh_instance: MeshInstanceExtracted {
                    instance_type: MeshInstanceType::SceneInstanced(indx),
                    mesh_name: instance.mesh.clone(),
                    transform: InstanceTransform {
                        position: Position::from_array(instance.position),
                        rotation: Rotation::identity(),
                    },
                },
            },
        );
        indx = indx + 1;
    }
    (scene_instances, RenderInstances::new())
}

/// The first call for a tracked instance: move it if it is bound, else load
/// its mesh.
pub open spec fn first_request(
    registries: Registries,
    instance: MeshInstanceExtracted,
) -> RenderRequestView {
    match registries.binding(instance.instance_type) {
        Some(bound) => RenderRequestView::SetInstanceTransform {
            instance_handle: bound.instance_handle,
            transform: instance.transform,
        },
        None => RenderRequestView::AddBakedMesh {
            path: spec_baked_mesh_path(instance.mesh_name@),
        },
    }
}

/// The registries once the first call for a tracked instance is chosen: a
/// binding that exists records the transform that is pushed, and nothing
/// else changes.
pub open spec fn after_first_request(
    registries: Registries,
    instance: MeshInstanceExtracted,
) -> Registries {
    match registries.binding(instance.instance_type) {
        Some(bound) => registries.bind(
            instance.instance_type,
            RenderInstance { transform: instance.transform, ..bound },
        ),
        None => registries,
    }
}

/// Begins the work for one tracked instance and returns the call to make on
/// the renderer.
///
/// An instance with a binding only has its transform pushed, under the handle
/// that the binding holds. An instance without one needs its mesh first: the
/// answer to the returned `AddBakedMesh` goes to `mesh_loaded`.
pub fn update_scene_view(
    render_instances: &mut RenderInstances,
    extracted_instance: &MeshInstanceExtracted,
) -> (request: RenderRequest)
    ensures
        request@ == first_request(old(render_instances)@, *extracted_instance),
        final(render_instances)@ == after_first_request(
            old(render_instances)@,
            *extracted_instance,
        ),
        old(render_instances)@.finite() ==> final(render_instances)@.finite(),
{
    match render_instances.get(&extracted_instance.instance_type) {
        Some(render_instance) => {
            render_instances.insert(
                &extracted_instance.instance_type,
                RenderInstance {
                    instance_handle: render_instance.instance_handle,
                    mesh_handle: render_instance.mesh_handle,
                    transform: extracted_instance.transform,
                },
            );
            RenderRequest::SetInstanceTransform {
                instance_handle: render_instance.instance_handle,
                transform: extracted_instance.transform,
            }
        },
        None => RenderRequest::AddBakedMesh {
            path: baked_mesh_path(extracted_instance.mesh_name.as_str()),
        },
    }
}

/// What follows the renderer's answer to `AddBakedMesh`: with a mesh handle,
/// the call that creates the instance at the transform it has now; without
/// one, the name of the mesh that is missing.
pub open spec fn after_load(instance: MeshInstanceExtracted, loaded: Option<MeshHandle>) -> Result<
    RenderRequestView,
    Seq<char>,
> {
    match loaded {
        Some(mesh_handle) => Ok(
            RenderRequestView::AddInstance { mesh_handle, transform: instance.transform },
        ),
        None => Err(instance.mesh_name@),
    }
}

/// The binding of an instance that the renderer has just created.
pub open spec fn created_binding(
    instance: MeshInstanceExtracted,
    mesh_handle: MeshHandle,
    instance_handle: InstanceHandle,
) -> RenderInstance {
    RenderInstance { instance_handle, mesh_handle, transform: instance.transform }
}

/// Takes the renderer's answer to `AddBakedMesh` for a tracked instance.
///
/// With a mesh handle the instance can be created, at the transform it has
/// now: the answer to the returned `AddInstance` goes to `instance_added`.
/// Without one the mesh is missing, and the error names it.
pub fn mesh_loaded(extracted_instance: &MeshInstanceExtracted, loaded: Option<MeshHandle>) -> (next:
    Result<RenderRequest, MeshLoadError>)
    ensures
        match next {
            Ok(request) => after_load(*extracted_instance, loaded) == Ok::<
                RenderRequestView,
                Seq<char>,
            >(request@),
            Err(error) => after_load(*extracted_instance, loaded) == Err::<
                RenderRequestView,
                Seq<char>,
            >(error.mesh_name@),
        },
{
    match loaded {
        Some(mesh_handle) => Ok(
            RenderRequest::AddInstance { mesh_handle, transform: extracted_instance.transform },
        ),
        None => Err(MeshLoadError { mesh_name: extracted_instance.mesh_name.clone() }),
    }
}

/// Takes the renderer's answer to `AddInstance` for a tracked instance and
/// binds the instance to its new handles, in the registry of its kind.
pub fn instance_added(
    render_instances: &mut RenderInstances,
    extracted_instance: &MeshInstanceExtracted,
    mesh_handle: MeshHandle,
    instance_handle: InstanceHandle,
)
    ensures
        final(render_instances)@ == old(render_instances)@.bind(
            extracted_instance.instance_type,
            created_binding(*extracted_instance, mesh_handle, instance_handle),
        ),
        old(render_instances)@.finite() ==> final(render_instances)@.finite(),
{
    render_instances.insert(
        &extracted_instance.instance_type,
        RenderInstance { instance_handle, mesh_handle, transform: extracted_instance.transform },
    );
}

} // verus!
