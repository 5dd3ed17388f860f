//! What holds of the work for one instance and of every pass.

use vstd::prelude::*;
use crate::mesh::{MeshInstanceExtracted, MeshInstanceType, RenderInstance};
use crate::pass::{
    all_bound,
    creations,
    keyed_by_place,
    mesh_loads,
    reconcile,
    reconcile_all,
    same_instances,
    RendererAnswer,
};
use crate::registry::Registries;
use crate::renderer::{spec_baked_mesh_path, RenderRequestView};
use crate::scene::created_binding;

verus! {

/// An instance seen for the first time, whose mesh can be loaded, has its
/// mesh loaded once and is then created once, and exactly one binding is
/// added: its own, in the registry of its kind.
pub proof fn lemma_new_instance_loaded_then_created(
    registries: Registries,
    instance: MeshInstanceExtracted,
    answer: RendererAnswer,
)
    requires
        registries.finite(),
        registries.binding(instance.instance_type) is None,
        answer.mesh is Some,
    ensures
        ({
            let done = reconcile(registries, instance, answer);
            let mesh_handle = answer.mesh->Some_0;
            let key = instance.instance_type.spec_key();
            &&& done.failure is None
            &&& done.requests == seq![
                RenderRequestView::AddBakedMesh {
                    path: spec_baked_mesh_path(instance.mesh_name@),
                },
                RenderRequestView::AddInstance { mesh_handle, transform: instance.transform },
            ]
            &&& mesh_loads(done.requests) == 1
            &&& creations(done.requests) == 1
            &&& done.registries == registries.bind(
                instance.instance_type,
                created_binding(instance, mesh_handle, answer.instance),
            )
            &&& done.registries.binding(instance.instance_type) == Some(
                created_binding(instance, mesh_handle, answer.instance),
            )
            &&& !registries.registry_of(instance.instance_type).contains_key(key)
            &&& done.registries.registry_of(instance.instance_type).dom()
                == registries.registry_of(instance.instance_type).dom().insert(key)
            &&& done.registries.user_instances.len() + done.registries.scene_instances.len()
                == registries.user_instances.len() + registries.scene_instances.len() + 1
        }),
{
    let done = reconcile(registries, instance, answer);
    lemma_count_two(done.requests);
}

/// An instance that has a binding is only moved: the one call pushes its
/// transform under the handle of the binding, no mesh is loaded and no
/// instance created, and no registry gains or loses a key.
pub proof fn lemma_bound_instance_only_moved(
    registries: Registries,
    instance: MeshInstanceExtracted,
    answer: RendererAnswer,
)
    requires
        registries.binding(instance.instance_type) is Some,
    ensures
        ({
            let done = reconcile(registries, instance, answer);
            let bound = registries.binding(instance.instance_type)->Some_0;
            &&& done.failure is None
            &&& done.requests == seq![
                RenderRequestView::SetInstanceTransform {
                    instance_handle: bound.instance_handle,
                    transform: instance.transform,
                },
            ]
            &&& mesh_loads(done.requests) == 0
            &&& creations(done.requests) == 0
            &&& done.registries.binding(instance.instance_type) == Some(
                RenderInstance { transform: instance.transform, ..bound },
            )
            &&& done.registries.user_instances.dom() == registries.user_instances.dom()
            &&& done.registries.scene_instances.dom() == registries.scene_instances.dom()
        }),
{
    let done = reconcile(registries, instance, answer);
    lemma_count_two(done.requests);
    assert(done.registries.user_instances.dom() =~= registries.user_instances.dom());
    assert(done.registries.scene_instances.dom() =~= registries.scene_instances.dom());
}

/// Work on one instance twice in a row, the transform unchanged: the second
/// time nothing is created and the registries stay as the first time left
/// them. Over both times the instance is created once if it was new, and
/// never if it was bound.
pub proof fn lemma_repeated_work_creates_once(
    registries: Registries,
    instance: MeshInstanceExtracted,
    first_answer: RendererAnswer,
    second_answer: RendererAnswer,
)
    requires
        reconcile(registries, instance, first_answer).failure is None,
    ensures
        ({
            let first = reconcile(registries, instance, first_answer);
            let second = reconcile(first.registries, instance, second_answer);
            &&& second.failure is None
            &&& second.registries == first.registries
            &&& second.requests == seq![
                RenderRequestView::SetInstanceTransform {
                    instance_handle: first.registries.binding(
                        instance.instance_type,
                    )->Some_0.instance_handle,
                    transform: instance.transform,
                },
            ]
            &&& creations(second.requests) == 0
            &&& mesh_loads(second.requests) == 0
            &&& creations(first.requests) + creations(second.requests) == (if registries.binding(
                instance.instance_type,
            ) is None {
                1nat
            } else {
                0nat
            })
        }),
{
    let first = reconcile(registries, instance, first_answer);
    let second = reconcile(first.registries, instance, second_answer);
    lemma_count_two(first.requests);
    lemma_count_two(second.requests);
    assert(second.registries.user_instances =~= first.registries.user_instances);
    assert(second.registries.scene_instances =~= first.registries.scene_instances);
}

/// Work on one instance leaves the binding of every other instance as it
/// was. An instance spawned at run time and one declared in the scene are
/// never the same instance, whatever their keys.
pub proof fn lemma_other_instances_untouched(
    registries: Registries,
    instance: MeshInstanceExtracted,
    answer: RendererAnswer,
    other: MeshInstanceType,
)
    requires
        other != instance.instance_type,
    ensures
        reconcile(registries, instance, answer).registries.binding(other) == registries.binding(
            other,
        ),
{
}

/// The order in which two different instances are worked on is immaterial:
/// each gets the same calls and the same outcome either way, and the
/// registries end up the same.
pub proof fn lemma_order_immaterial(
    registries: Registries,
    one: MeshInstanceExtracted,
    one_answer: RendererAnswer,
    other: MeshInstanceExtracted,
    other_answer: RendererAnswer,
)
    requires
        one.instance_type != other.instance_type,
    ensures
        ({
            let one_first = reconcile(registries, one, one_answer);
            let other_second = reconcile(one_first.registries, other, other_answer);
            let other_first = reconcile(registries, other, other_answer);
            let one_second = reconcile(other_first.registries, one, one_answer);
            &&& one_second.requests == one_first.requests
            &&& one_second.failure == one_first.failure
            &&& other_second.requests == other_first.requests
            &&& other_second.failure == other_first.failure
            &&& other_second.registries == one_second.registries
        }),
{
    let one_first = reconcile(registries, one, one_answer);
    let other_second = reconcile(one_first.registries, other, other_answer);
    let other_first = reconcile(registries, other, other_answer);
    let one_second = reconcile(other_first.registries, one, one_answer);
    lemma_other_instances_untouched(registries, one, one_answer, other.instance_type);
    lemma_other_instances_untouched(registries, other, other_answer, one.instance_type);
    assert(other_second.registries.user_instances =~= one_second.registries.user_instances);
    assert(other_second.registries.scene_instances =~= one_second.registries.scene_instances);
}

/// Binding an instance of one kind leaves the registry of the other kind as
/// it was, also where the two keys are the same number.
pub proof fn lemma_kinds_kept_apart(
    registries: Registries,
    entity: u64,
    index: usize,
    instance: RenderInstance,
)
    ensures
        registries.bind(MeshInstanceType::UserInstanced(entity), instance).scene_instances
            == registries.scene_instances,
        registries.bind(MeshInstanceType::SceneInstanced(index), instance).user_instances
            == registries.user_instances,
        registries.bind(MeshInstanceType::UserInstanced(entity), instance).binding(
            MeshInstanceType::SceneInstanced(index),
        ) == registries.binding(MeshInstanceType::SceneInstanced(index)),
        registries.bind(MeshInstanceType::SceneInstanced(index), instance).binding(
            MeshInstanceType::UserInstanced(entity),
        ) == registries.binding(MeshInstanceType::UserInstanced(entity)),
{
}

/// A new instance whose mesh is missing stops the work: the failure names
/// the mesh, the only call made is the attempt to load it, and the
/// registries are as before.
pub proof fn lemma_missing_mesh_binds_nothing(
    registries: Registries,
    instance: MeshInstanceExtracted,
    answer: RendererAnswer,
)
    requires
        registries.binding(instance.instance_type) is None,
        answer.mesh is None,
    ensures
        ({
            let done = reconcile(registries, instance, answer);
            &&& done.failure == Some(instance.mesh_name@)
            &&& done.registries == registries
            &&& done.requests == seq![
                RenderRequestView::AddBakedMesh {
                    path: spec_baked_mesh_path(instance.mesh_name@),
                },
            ]
            &&& creations(done.requests) == 0
        }),
{
    lemma_count_two(reconcile(registries, instance, answer).requests);
}

/// Counting over a sequence of one or two requests.
proof fn lemma_count_two(requests: Seq<RenderRequestView>)
    requires
        1 <= requests.len() <= 2,
    ensures
        creations(requests) == (if requests[0] is AddInstance { 1nat } else { 0nat })
            + (if requests.len() == 2 && requests[1] is AddInstance { 1nat } else { 0nat }),
        mesh_loads(requests) == (if requests[0] is AddBakedMesh { 1nat } else { 0nat })
            + (if requests.len() == 2 && requests[1] is AddBakedMesh { 1nat } else { 0nat }),
{
    reveal_with_fuel(creations, 3);
    reveal_with_fuel(mesh_loads, 3);
    if requests.len() == 2 {
        assert(requests.drop_last().len() == 1);
        assert(requests.drop_last().drop_last().len() == 0);
        assert(requests.drop_last().last() == requests[0]);
    } else {
        assert(requests.drop_last().len() == 0);
    }
}

/// Work on one instance never removes a binding.
pub proof fn lemma_bindings_kept(
    registries: Registries,
    instance: MeshInstanceExtracted,
    answer: RendererAnswer,
    other: MeshInstanceType,
)
    requires
        registries.binding(other) is Some,
    ensures
        reconcile(registries, instance, answer).registries.binding(other) is Some,
{
}

/// The counts over two runs of requests add up.
pub proof fn lemma_counts_add(earlier: Seq<RenderRequestView>, later: Seq<RenderRequestView>)
    ensures
        creations(earlier + later) == creations(earlier) + creations(later),
        mesh_loads(earlier + later) == mesh_loads(earlier) + mesh_loads(later),
    decreases later.len(),
{
    if later.len() == 0 {
        assert(earlier + later =~= earlier);
    } else {
        lemma_counts_add(earlier, later.drop_last());
        assert((earlier + later).drop_last() =~= earlier + later.drop_last());
        assert((earlier + later).last() == later.last());
    }
}

/// A pass that was not stopped leaves every one of its instances bound.
pub proof fn lemma_pass_binds_every_instance(
    registries: Registries,
    instances: Seq<MeshInstanceExtracted>,
    answers: Seq<RendererAnswer>,
)
    requires
        answers.len() == instances.len(),
        reconcile_all(registries, instances, answers).failure is None,
    ensures
        all_bound(reconcile_all(registries, instances, answers).registries, instances),
    decreases instances.len(),
{
    if instances.len() > 0 {
        let earlier = reconcile_all(
            registries,
            instances.drop_last(),
            answers.take(instances.len() - 1),
        );
        let answer = answers[instances.len() - 1];
        lemma_pass_binds_every_instance(
            registries,
            instances.drop_last(),
            answers.take(instances.len() - 1),
        );
        let done = reconcile(earlier.registries, instances.last(), answer);
        assert forall|i: int| 0 <= i < instances.len() implies done.registries.binding(
            (#[trigger] instances[i]).instance_type,
        ) is Some by {
            if i < instances.len() - 1 {
                assert(instances.drop_last()[i] == instances[i]);
                lemma_bindings_kept(
                    earlier.registries,
                    instances.last(),
                    answer,
                    instances[i].instance_type,
                );
            }
        }
    }
}

/// A pass over instances that all have bindings only moves them: it is not
/// stopped, makes one call for each instance, loads no mesh, creates no
/// instance, and no registry gains or loses a key.
pub proof fn lemma_pass_over_bound_only_moves(
    registries: Registries,
    instances: Seq<MeshInstanceExtracted>,
    answers: Seq<RendererAnswer>,
)
    requires
        answers.len() == instances.len(),
        all_bound(registries, instances),
    ensures
        ({
            let done = reconcile_all(registries, instances, answers);
            &&& done.failure is None
            &&& done.requests.len() == instances.len()
            &&& creations(done.requests) == 0
            &&& mesh_loads(done.requests) == 0
            &&& same_instances(registries, done.registries)
        }),
    decreases instances.len(),
{
    if instances.len() > 0 {
        let earlier = reconcile_all(
            registries,
            instances.drop_last(),
            answers.take(instances.len() - 1),
        );
        let answer = answers[instances.len() - 1];
        assert forall|i: int| 0 <= i < instances.drop_last().len() implies registries.binding(
            (#[trigger] instances.drop_last()[i]).instance_type,
        ) is Some by {
            assert(instances.drop_last()[i] == instances[i]);
        }
        lemma_pass_over_bound_only_moves(
            registries,
            instances.drop_last(),
            answers.take(instances.len() - 1),
        );
        let last = instances.last();
        assert(registries.binding(last.instance_type) is Some) by {
            assert(instances[instances.len() - 1] == last);
        }
        assert(earlier.registries.binding(last.instance_type) is Some) by {
            let key = last.instance_type.spec_key();
            assert(registries.registry_of(last.instance_type).dom().contains(key));
            assert(earlier.registries.registry_of(last.instance_type).dom().contains(key));
        }
        lemma_bound_instance_only_moved(earlier.registries, last, answer);
        lemma_counts_add(earlier.requests, reconcile(earlier.registries, last, answer).requests);
    } else {
        assert(reconcile_all(registries, instances, answers).requests.len() == 0);
    }
}

/// Two passes in a row over the same instances: if the first was not
/// stopped, the second is not stopped either, whatever the renderer would
/// answer. It only moves instances, one call for each, and leaves every
/// registry with the keys it had after the first pass, so with the same size.
pub proof fn lemma_second_pass_creates_nothing(
    registries: Registries,
    instances: Seq<MeshInstanceExtracted>,
    first_answers: Seq<RendererAnswer>,
    second_answers: Seq<RendererAnswer>,
)
    requires
        first_answers.len() == instances.len(),
        second_answers.len() == instances.len(),
        reconcile_all(registries, instances, first_answers).failure is None,
    ensures
        ({
            let first = reconcile_all(registries, instances, first_answers);
            let second = reconcile_all(first.registries, instances, second_answers);
            &&& second.failure is None
            &&& second.requests.len() == instances.len()
            &&& creations(second.requests) == 0
            &&& mesh_loads(second.requests) == 0
            &&& same_instances(first.registries, second.registries)
            &&& second.registries.scene_instances.len() == first.registries.scene_instances.len()
            &&& second.registries.user_instances.len() == first.registries.user_instances.len()
        }),
{
    let first = reconcile_all(registries, instances, first_answers);
    lemma_pass_binds_every_instance(registries, instances, first_answers);
    lemma_pass_over_bound_only_moves(first.registries, instances, second_answers);
}

/// Every instance that a pass creates is one new binding, and every binding
/// that a pass adds belongs to an instance that it created: the registries
/// grow by the number of `AddInstance` calls. Each of those calls follows a
/// mesh load of its own; a pass that was stopped made one load more.
pub proof fn lemma_pass_creates_what_it_binds(
    registries: Registries,
    instances: Seq<MeshInstanceExtracted>,
    answers: Seq<RendererAnswer>,
)
    requires
        answers.len() == instances.len(),
        registries.finite(),
    ensures
        ({
            let done = reconcile_all(registries, instances, answers);
            &&& done.registries.finite()
            &&& done.registries.user_instances.len() + done.registries.scene_instances.len()
                == registries.user_instances.len() + registries.scene_instances.len()
                + creations(done.requests)
            &&& mesh_loads(done.requests) == creations(done.requests) + (if done.failure is Some {
                1nat
            } else {
                0nat
            })
        }),
    decreases instances.len(),
{
    if instances.len() > 0 {
        let earlier = reconcile_all(
            registries,
            instances.drop_last(),
            answers.take(instances.len() - 1),
        );
        let answer = answers[instances.len() - 1];
        let last = instances.last();
        lemma_pass_creates_what_it_binds(
            registries,
            instances.drop_last(),
            answers.take(instances.len() - 1),
        );
        if earlier.failure is None {
            let done = reconcile(earlier.registries, last, answer);
            lemma_counts_add(earlier.requests, done.requests);
            if earlier.registries.binding(last.instance_type) is Some {
                lemma_bound_instance_only_moved(earlier.registries, last, answer);
            } else if answer.mesh is Some {
                lemma_new_instance_loaded_then_created(earlier.registries, last, answer);
            } else {
                lemma_missing_mesh_binds_nothing(earlier.registries, last, answer);
                lemma_count_two(done.requests);
            }
        }
    } else {
        assert(creations(Seq::<RenderRequestView>::empty()) == 0);
    }
}

/// The first pass over a scene that was just set up, if no mesh is missing,
/// loads a mesh and creates an instance for every declared instance and for
/// nothing else: afterwards the scene registry holds the places `0` to
/// `instances.len() - 1` and the other registry is still empty.
pub proof fn lemma_first_pass_binds_whole_scene(
    instances: Seq<MeshInstanceExtracted>,
    answers: Seq<RendererAnswer>,
)
    requires
        answers.len() == instances.len(),
        instances.len() <= usize::MAX,
        keyed_by_place(instances),
        reconcile_all(Registries::empty(), instances, answers).failure is None,
    ensures
        ({
            let done = reconcile_all(Registries::empty(), instances, answers);
            &&& done.registries.user_instances == Registries::empty().user_instances
            &&& forall|key: u64|
                done.registries.scene_instances.contains_key(key) <==> key < instances.len()
            &&& done.registries.scene_instances.len() == instances.len()
            &&& creations(done.requests) == instances.len()
            &&& mesh_loads(done.requests) == instances.len()
            &&& done.requests.len() == 2 * instances.len()
        }),
    decreases instances.len(),
{
    let done = reconcile_all(Registries::empty(), instances, answers);
    if instances.len() > 0 {
        let shorter = instances.drop_last();
        let fewer = answers.take(instances.len() - 1);
        let earlier = reconcile_all(Registries::empty(), shorter, fewer);
        let last = instances.last();
        let answer = answers[instances.len() - 1];
        assert(keyed_by_place(shorter)) by {
            assert forall|i: int| 0 <= i < shorter.len() implies (#[trigger] shorter[i]).instance_type
                == MeshInstanceType::SceneInstanced(i as usize) by {
                assert(shorter[i] == instances[i]);
            }
        }
        lemma_first_pass_binds_whole_scene(shorter, fewer);
        assert(last == instances[instances.len() - 1]);
        assert(last.instance_type == MeshInstanceType::SceneInstanced(
            (instances.len() - 1) as usize,
        ));
        assert(last.instance_type.spec_key() == instances.len() - 1);
        assert(!earlier.registries.scene_instances.contains_key(last.instance_type.spec_key()));
        let here = reconcile(earlier.registries, last, answer);
        lemma_counts_add(earlier.requests, here.requests);
        lemma_count_two(here.requests);
        assert(done.registries.user_instances =~= Registries::empty().user_instances);
    } else {
        assert(done.requests.len() == 0);
    }
    lemma_pass_creates_what_it_binds(Registries::empty(), instances, answers);
}

/// Cutting a pass short at a missing mesh is what the pass itself does: if
/// the first `count` instances already stop it, the rest changes nothing.
pub proof fn lemma_stopped_pass_stays_stopped(
    registries: Registries,
    instances: Seq<MeshInstanceExtracted>,
    answers: Seq<RendererAnswer>,
    count: int,
)
    requires
        answers.len() == instances.len(),
        0 <= count <= instances.len(),
        reconcile_all(registries, instances.take(count), answers.take(count)).failure is Some,
    ensures
        reconcile_all(registries, instances, answers) == reconcile_all(
            registries,
            instances.take(count),
            answers.take(count),
        ),
    decreases instances.len(),
{
    if count == instances.len() {
        assert(instances.take(count) =~= instances);
        assert(answers.take(count) =~= answers);
    } else {
        let shorter = instances.drop_last();
        let fewer = answers.take(instances.len() - 1);
        assert(shorter.take(count) =~= instances.take(count));
        assert(fewer.take(count) =~= answers.take(count));
        lemma_stopped_pass_stays_stopped(registries, shorter, fewer, count);
    }
}

} // verus!
