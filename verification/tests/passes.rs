use bevy_kajiya_render::mesh::{
    InstanceHandle, MeshHandle, MeshInstanceExtracted, MeshInstanceType, RenderInstance,
};
use bevy_kajiya_render::pass::RendererAnswer;
use bevy_kajiya_render::replay::{run_instance, run_pass, PassReport};
use bevy_kajiya_render::registry::RenderInstances;
use bevy_kajiya_render::renderer::{MeshLoadError, RenderRequest};
use bevy_kajiya_render::scene::{setup_scene_view, SceneDesc, SceneInstanceDesc};
use bevy_kajiya_render::transform::{InstanceTransform, Position, Rotation};

fn at(x: f32) -> InstanceTransform {
    InstanceTransform {
        position: Position { x: x.to_bits(), y: 0, z: 0 },
        rotation: Rotation::identity(),
    }
}

fn extracted(instance_type: MeshInstanceType, mesh: &str, x: f32) -> MeshInstanceExtracted {
    MeshInstanceExtracted { instance_type, mesh_name: mesh.to_string(), transform: at(x) }
}

fn found(mesh: usize, instance: usize) -> RendererAnswer {
    RendererAnswer { mesh: Some(MeshHandle(mesh)), instance: InstanceHandle(instance) }
}

fn missing() -> RendererAnswer {
    RendererAnswer { mesh: None, instance: InstanceHandle(0) }
}

fn load(mesh: &str) -> RenderRequest {
    RenderRequest::AddBakedMesh { path: format!("/baked/{}.mesh", mesh) }
}

fn create(mesh: usize, x: f32) -> RenderRequest {
    RenderRequest::AddInstance { mesh_handle: MeshHandle(mesh), transform: at(x) }
}

fn set(instance: usize, x: f32) -> RenderRequest {
    RenderRequest::SetInstanceTransform { instance_handle: InstanceHandle(instance), transform: at(x) }
}

#[test]
fn run_instance_on_a_new_instance() {
    let mut render_instances = RenderInstances::new();
    let car = extracted(MeshInstanceType::SceneInstanced(2), "car", 1.0);
    let report = run_instance(&mut render_instances, &car, found(4, 11));
    assert_eq!(report, PassReport { requests: vec![load("car"), create(4, 1.0)], failure: None });
    assert_eq!(
        render_instances.get(&car.instance_type),
        Some(RenderInstance {
            instance_handle: InstanceHandle(11),
            mesh_handle: MeshHandle(4),
            transform: at(1.0),
        })
    );
    assert_eq!(render_instances.scene_instance_count(), 1);
}

#[test]
fn run_instance_on_a_bound_instance_ignores_the_answer() {
    let mut render_instances = RenderInstances::new();
    let mut car = extracted(MeshInstanceType::UserInstanced(2), "car", 1.0);
    run_instance(&mut render_instances, &car, found(4, 11));
    car.transform = at(6.0);
    let report = run_instance(&mut render_instances, &car, missing());
    assert_eq!(report, PassReport { requests: vec![set(11, 6.0)], failure: None });
    let again = run_instance(&mut render_instances, &car, found(9, 99));
    assert_eq!(again, PassReport { requests: vec![set(11, 6.0)], failure: None });
    assert_eq!(
        render_instances.get(&car.instance_type),
        Some(RenderInstance {
            instance_handle: InstanceHandle(11),
            mesh_handle: MeshHandle(4),
            transform: at(6.0),
        })
    );
    assert_eq!(render_instances.user_instance_count(), 1);
}

#[test]
fn run_instance_with_a_missing_mesh() {
    let mut render_instances = RenderInstances::new();
    let ghost = extracted(MeshInstanceType::SceneInstanced(0), "ghost", 0.0);
    let report = run_instance(&mut render_instances, &ghost, missing());
    assert_eq!(
        report,
        PassReport {
            requests: vec![load("ghost")],
            failure: Some(MeshLoadError { mesh_name: "ghost".to_string() }),
        }
    );
    assert_eq!(render_instances.get(&ghost.instance_type), None);
    assert_eq!(render_instances.scene_instance_count(), 0);
}

#[test]
fn run_pass_over_nothing() {
    let mut render_instances = RenderInstances::new();
    let report = run_pass(&mut render_instances, &Vec::new(), &Vec::new());
    assert_eq!(report, PassReport { requests: Vec::new(), failure: None });
}

#[test]
fn run_pass_twice_creates_each_instance_once() {
    let mut render_instances = RenderInstances::new();
    let instances = vec![
        extracted(MeshInstanceType::SceneInstanced(0), "car", 0.0),
        extracted(MeshInstanceType::SceneInstanced(1), "car", 1.0),
        extracted(MeshInstanceType::UserInstanced(0), "tree", 2.0),
    ];
    let answers = vec![found(0, 0), found(0, 1), found(1, 2)];
    let first = run_pass(&mut render_instances, &instances, &answers);
    assert_eq!(
        first,
        PassReport {
            requests: vec![
                load("car"),
                create(0, 0.0),
                load("car"),
                create(0, 1.0),
                load("tree"),
                create(1, 2.0),
            ],
            failure: None,
        }
    );
    assert_eq!(render_instances.scene_instance_count(), 2);
    assert_eq!(render_instances.user_instance_count(), 1);

    let other_answers = vec![missing(), found(7, 7), missing()];
    let second = run_pass(&mut render_instances, &instances, &other_answers);
    assert_eq!(
        second,
        PassReport { requests: vec![set(0, 0.0), set(1, 1.0), set(2, 2.0)], failure: None }
    );
    assert_eq!(render_instances.scene_instance_count(), 2);
    assert_eq!(render_instances.user_instance_count(), 1);
}

#[test]
fn run_pass_stops_at_the_first_missing_mesh() {
    let mut render_instances = RenderInstances::new();
    let instances = vec![
        extracted(MeshInstanceType::SceneInstanced(0), "car", 0.0),
        extracted(MeshInstanceType::SceneInstanced(1), "ghost", 1.0),
        extracted(MeshInstanceType::SceneInstanced(2), "tree", 2.0),
    ];
    let answers = vec![found(0, 0), missing(), found(1, 1)];
    let report = run_pass(&mut render_instances, &instances, &answers);
    assert_eq!(
        report,
        PassReport {
            requests: vec![load("car"), create(0, 0.0), load("ghost")],
            failure: Some(MeshLoadError { mesh_name: "ghost".to_string() }),
        }
    );
    assert_eq!(render_instances.scene_instance_count(), 1);
    assert!(render_instances.get(&MeshInstanceType::SceneInstanced(0)).is_some());
    assert_eq!(render_instances.get(&MeshInstanceType::SceneInstanced(1)), None);
    assert_eq!(render_instances.get(&MeshInstanceType::SceneInstanced(2)), None);
}

#[test]
fn run_pass_with_one_instance_listed_twice_creates_it_once() {
    let mut render_instances = RenderInstances::new();
    let instances = vec![
        extracted(MeshInstanceType::UserInstanced(3), "car", 0.0),
        extracted(MeshInstanceType::UserInstanced(3), "car", 5.0),
    ];
    let answers = vec![found(0, 0), found(0, 1)];
    let report = run_pass(&mut render_instances, &instances, &answers);
    assert_eq!(
        report,
        PassReport { requests: vec![load("car"), create(0, 0.0), set(0, 5.0)], failure: None }
    );
    assert_eq!(render_instances.user_instance_count(), 1);
    assert_eq!(
        render_instances.get(&MeshInstanceType::UserInstanced(3)),
        Some(RenderInstance {
            instance_handle: InstanceHandle(0),
            mesh_handle: MeshHandle(0),
            transform: at(5.0),
        })
    );
}

#[test]
fn first_pass_over_a_fresh_scene_binds_every_place() {
    let meshes = ["car", "tree", "car", "house"];
    let scene_desc = SceneDesc {
        instances: meshes
            .iter()
            .map(|mesh| SceneInstanceDesc { position: [0, 0, 0], mesh: mesh.to_string() })
            .collect(),
    };
    let (bundles, mut render_instances) = setup_scene_view(&scene_desc);
    let instances: Vec<MeshInstanceExtracted> =
        bundles.into_iter().map(|bundle| bundle.mesh_instance).collect();
    let answers = vec![found(0, 10), found(1, 11), found(0, 12), found(2, 13)];
    let report = run_pass(&mut render_instances, &instances, &answers);
    assert_eq!(report.failure, None);
    assert_eq!(report.requests.len(), 8);
    assert_eq!(render_instances.scene_instance_count(), 4);
    assert_eq!(render_instances.user_instance_count(), 0);
    for place in 0..4usize {
        assert_eq!(report.requests[2 * place], load(meshes[place]));
        let bound = render_instances.get(&MeshInstanceType::SceneInstanced(place)).unwrap();
        assert_eq!(bound.instance_handle, InstanceHandle(10 + place));
        assert_eq!(render_instances.get(&MeshInstanceType::UserInstanced(place as u64)), None);
    }
    assert_eq!(render_instances.get(&MeshInstanceType::SceneInstanced(4)), None);
}
