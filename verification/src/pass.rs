//! A model of what a pass over the tracked instances does.
//!
//! The steps of `scene` wait for the renderer between one call and the next.
//! The model closes that gap with a `RendererAnswer`: what the renderer says if
//! it is asked. With it the work for one instance, and for a whole pass, is a
//! function of the registries, the instances and the answers.

use vstd::prelude::*;
use crate::mesh::{InstanceHandle, MeshHandle, MeshInstanceExtracted, MeshInstanceType};
use crate::registry::Registries;
use crate::renderer::RenderRequestView;
use crate::scene::{after_first_request, after_load, created_binding, first_request};

verus! {

/// What the renderer says about one instance if it is asked: the handle of
/// its mesh, unless the mesh is missing, and the handle of the instance that
/// it creates.
#[derive(Clone, Copy, Debug, PartialEq, Eq, Structural)]
pub struct RendererAnswer {
    pub mesh: Option<MeshHandle>,
    pub instance: InstanceHandle,
}

/// The outcome of work on the registries: the registries afterwards, the
/// calls made on the renderer in their order, and the name of the mesh that
/// was missing if the work stopped for one.
pub struct Reconciled {
    pub registries: Registries,
    pub requests: Seq<RenderRequestView>,
    pub failure: Option<Seq<char>>,
}

/// The work for one instance: `update_scene_view`, then, for an instance
/// without a binding, `mesh_loaded` and `instance_added` with the renderer's
/// answers.
pub open spec fn reconcile(
    registries: Registries,
    instance: MeshInstanceExtracted,
    answer: RendererAnswer,
) -> Reconciled {
    let first = first_request(registries, instance);
    let kept = after_first_request(registries, instance);
    if registries.binding(instance.instance_type) is Some {
        Reconciled { registries: kept, requests: seq![first], failure: None }
    } else {
        match after_load(instance, answer.mesh) {
            Err(mesh_name) => Reconciled {
                registries: kept,
                requests: seq![first],
                failure: Some(mesh_name),
            },
            Ok(create) => Reconciled {
                registries: kept.bind(
                    instance.instance_type,
                    created_binding(instance, answer.mesh->Some_0, answer.instance),
                ),
                requests: seq![first, create],
                failure: None,
            },
        }
    }
}

/// How many of `requests` create an instance.
pub open spec fn creations(requests: Seq<RenderRequestView>) -> nat
    decreases requests.len(),
{
    if requests.len() == 0 {
        0
    } else {
        let earlier = creations(requests.drop_last());
        if requests.last() is AddInstance {
            earlier + 1
        } else {
            earlier
        }
    }
}

/// How many of `requests` load a mesh.
pub open spec fn mesh_loads(requests: Seq<RenderRequestView>) -> nat
    decreases requests.len(),
{
    if requests.len() == 0 {
        0
    } else {
        let earlier = mesh_loads(requests.drop_last());
        if requests.last() is AddBakedMesh {
            earlier + 1
        } else {
            earlier
        }
    }
}

/// A pass: the work for each of `instances` in order, the instance at place
/// `i` with the answer at place `i`. A missing mesh stops the pass; the
/// instances after it are not looked at.
pub open spec fn reconcile_all(
    registries: Registries,
    instances: Seq<MeshInstanceExtracted>,
    answers: Seq<RendererAnswer>,
) -> Reconciled
    recommends
        answers.len() == instances.len(),
    decreases instances.len(),
{
    if instances.len() == 0 {
        Reconciled { registries, requests: Seq::empty(), failure: None }
    } else {
        let earlier = reconcile_all(
            registries,
            instances.drop_last(),
            answers.take(instances.len() - 1),
        );
        if earlier.failure is Some {
            earlier
        } else {
            let last = reconcile(
                earlier.registries,
                instances.last(),
                answers[instances.len() - 1],
            );
            Reconciled {
                registries: last.registries,
                requests: earlier.requests + last.requests,
                failure: last.failure,
            }
        }
    }
}

/// Whether every one of `instances` has a binding in `registries`.
pub open spec fn all_bound(registries: Registries, instances: Seq<MeshInstanceExtracted>) -> bool {
    forall|i: int|
        0 <= i < instances.len() ==> registries.binding(
            (#[trigger] instances[i]).instance_type,
        ) is Some
}

/// Whether `instances` are the instances of a scene as `setup_scene_view`
/// hands them out: each declared in the scene and keyed by its place.
pub open spec fn keyed_by_place(instances: Seq<MeshInstanceExtracted>) -> bool {
    forall|i: int|
        0 <= i < instances.len() ==> (#[trigger] instances[i]).instance_type
            == MeshInstanceType::SceneInstanced(i as usize)
}

/// Whether two registries hold bindings for the same instances.
pub open spec fn same_instances(before: Registries, after: Registries) -> bool {
    &&& after.user_instances.dom() == before.user_instances.dom()
    &&& after.scene_instances.dom() == before.scene_instances.dom()
}

} // verus!
