//! Runs of the bookkeeping against a renderer whose answers are known
//! beforehand. They follow the model of `pass` call for call.

use vstd::prelude::*;
use crate::mesh::MeshInstanceExtracted;
use crate::pass::{reconcile, reconcile_all, Reconciled, RendererAnswer};
use crate::pass_proofs::lemma_stopped_pass_stays_stopped;
use crate::registry::RenderInstances;
use crate::renderer::{MeshLoadError, RenderRequest, RenderRequestView};
use crate::scene::{instance_added, mesh_loaded, update_scene_view};

verus! {

/// The calls of a run and the error that stopped it, if one did.
#[derive(Debug, PartialEq, Eq)]
pub struct PassReport {
    pub requests: Vec<RenderRequest>,
    pub failure: Option<MeshLoadError>,
}

/// The requests with their paths as sequences of characters.
pub open spec fn request_views(requests: Seq<RenderRequest>) -> Seq<RenderRequestView> {
    requests.map_values(|request: RenderRequest| request@)
}

impl PassReport {
    /// Whether this report tells of the calls and the failure of `done`.
    pub open spec fn tells(self, done: Reconciled) -> bool {
        &&& request_views(self.requests@) == done.requests
        &&& match self.failure {
            Some(error) => done.failure == Some(error.mesh_name@),
            None => done.failure is None,
        }
    }
}

/// Does the work for one instance against a renderer whose answer is known
/// beforehand, and reports the calls that the renderer would have received.
pub fn run_instance(
    render_instances: &mut RenderInstances,
    extracted_instance: &MeshInstanceExtracted,
    answer: RendererAnswer,
) -> (report: PassReport)
    ensures
        report.tells(reconcile(old(render_instances)@, *extracted_instance, answer)),
        final(render_instances)@ == reconcile(
            old(render_instances)@,
            *extracted_instance,
            answer,
        ).registries,
{
    let ghost before = render_instances@;
    let ghost done = reconcile(before, *extracted_instance, answer);
    let mut requests: Vec<RenderRequest> = Vec::new();
    let first = update_scene_view(render_instances, extracted_instance);
    let load = match &first {
        RenderRequest::AddBakedMesh { .. } => true,
        _ => false,
    };
    requests.push(first);
    if !load {
        assert(request_views(requests@) =~= done.requests);
        return PassReport { requests, failure: None };
    }
    match mesh_loaded(extracted_instance, answer.mesh) {
        Err(error) => {
            assert(request_views(requests@) =~= done.requests);
            PassReport { requests, failure: Some(error) }
        },
        Ok(create) => {
            requests.push(create);
            match answer.mesh {
                Some(mesh_handle) => {
                    instance_added(
                        render_instances,
                        extracted_instance,
                        mesh_handle,
                        answer.instance,
                    );
                },
                None => {},
            }
            assert(request_views(requests@) =~= done.requests);
            PassReport { requests, failure: None }
        },
    }
}

/// Does a whole pass against a renderer whose answers are known beforehand,
/// the answer at place `i` being for the instance at place `i`, and reports
/// the calls that the renderer would have received. A missing mesh ends the
/// pass at once.
pub fn run_pass(
    render_instances: &mut RenderInstances,
    instances: &Vec<MeshInstanceExtracted>,
    answers: &Vec<RendererAnswer>,
) -> (report: PassReport)
    requires
        answers@.len() == instances@.len(),
    ensures
        report.tells(reconcile_all(old(render_instances)@, instances@, answers@)),
        final(render_instances)@ == reconcile_all(
            old(render_instances)@,
            instances@,
            answers@,
        ).registries,
{
    let ghost before = render_instances@;
    let mut requests: Vec<RenderRequest> = Vec::new();
    let mut next: usize = 0;
    assert(request_views(requests@) =~= Seq::<RenderRequestView>::empty());
    while next < instances.len()
        invariant
            before == old(render_instances)@,
            answers@.len() == instances@.len(),
            next <= instances@.len(),
            reconcile_all(before, instances@.take(next as int), answers@.take(next as int))
                == (Reconciled {
                registries: render_instances@,
                requests: request_views(requests@),
                failure: None,
            }),
        decreases instances@.len() - next,
    {
        let ghost earlier = reconcile_all(
            before,
            instances@.take(next as int),
            answers@.take(next as int),
        );
        let ghost upto = next + 1;
        let ghost here = reconcile(render_instances@, instances@[next as int], answers@[next as int]);
        proof {
            assert(instances@.take(upto).drop_last() =~= instances@.take(next as int));
            assert(answers@.take(upto).take(next as int) =~= answers@.take(next as int));
            assert(instances@.take(upto).last() == instances@[next as int]);
            assert(answers@.take(upto)[next as int] == answers@[next as int]);
        }
        let mut report = run_instance(render_instances, &instances[next], answers[next]);
        let ghost sofar = requests@;
        let ghost added = report.requests@;
        requests.append(&mut report.requests);
        assert(request_views(requests@) =~= request_views(sofar) + request_views(added));
        assert(reconcile_all(before, instances@.take(upto), answers@.take(upto)) == (Reconciled {
            registries: here.registries,
            requests: earlier.requests + here.requests,
            failure: here.failure,
        }));
        if report.failure.is_some() {
            proof {
                lemma_stopped_pass_stays_stopped(before, instances@, answers@, upto);
            }
            return PassReport { requests, failure: report.failure };
        }
        next = next + 1;
    }
    assert(instances@.take(next as int) =~= instances@);
    assert(answers@.take(next as int) =~= answers@);
    PassReport { requests, failure: None }
}

} // verus!
