use bevy_kajiya_render::mesh::{InstanceHandle, MeshHandle, MeshInstanceType, RenderInstance};
use bevy_kajiya_render::registry::RenderInstances;
use bevy_kajiya_render::scene::{MeshInstanceBaked, MeshInstanceHandles};
use bevy_kajiya_render::transform::{InstanceTransform, Position, Rotation};

fn at(x: f32) -> InstanceTransform {
    InstanceTransform {
        position: Position { x: x.to_bits(), y: 0, z: 0 },
        rotation: Rotation::identity(),
    }
}

fn binding(instance: usize, mesh: usize, x: f32) -> RenderInstance {
    RenderInstance {
        instance_handle: InstanceHandle(instance),
        mesh_handle: MeshHandle(mesh),
        transform: at(x),
    }
}

#[test]
fn new_registries_hold_nothing() {
    let render_instances = RenderInstances::new();
    assert_eq!(render_instances.scene_instance_count(), 0);
    assert_eq!(render_instances.user_instance_count(), 0);
    assert_eq!(render_instances.get(&MeshInstanceType::SceneInstanced(0)), None);
    assert_eq!(render_instances.get(&MeshInstanceType::UserInstanced(0)), None);
}

#[test]
fn insert_then_get_returns_the_binding() {
    let mut render_instances = RenderInstances::new();
    let scene_key = MeshInstanceType::SceneInstanced(3);
    assert_eq!(render_instances.insert(&scene_key, binding(10, 1, 0.0)), None);
    assert_eq!(render_instances.get(&scene_key), Some(binding(10, 1, 0.0)));
    assert_eq!(render_instances.get(&MeshInstanceType::SceneInstanced(4)), None);
    assert_eq!(render_instances.scene_instance_count(), 1);
    assert_eq!(render_instances.user_instance_count(), 0);
}

#[test]
fn insert_under_a_bound_key_replaces_and_returns_the_old_binding() {
    let mut render_instances = RenderInstances::new();
    let user_key = MeshInstanceType::UserInstanced(77);
    assert_eq!(render_instances.insert(&user_key, binding(1, 1, 0.0)), None);
    assert_eq!(render_instances.insert(&user_key, binding(2, 1, 5.0)), Some(binding(1, 1, 0.0)));
    assert_eq!(render_instances.get(&user_key), Some(binding(2, 1, 5.0)));
    assert_eq!(render_instances.user_instance_count(), 1);
    assert_eq!(render_instances.scene_instance_count(), 0);
}

#[test]
fn counts_follow_the_number_of_keys() {
    let mut render_instances = RenderInstances::new();
    for index in 0..5usize {
        render_instances.insert(&MeshInstanceType::SceneInstanced(index), binding(index, 0, 0.0));
    }
    for entity in [9u64, 1 << 40, u64::MAX] {
        render_instances.insert(&MeshInstanceType::UserInstanced(entity), binding(0, 0, 0.0));
    }
    assert_eq!(render_instances.scene_instance_count(), 5);
    assert_eq!(render_instances.user_instance_count(), 3);
    assert_eq!(
        render_instances.get(&MeshInstanceType::UserInstanced(u64::MAX)),
        Some(binding(0, 0, 0.0))
    );
}

#[test]
fn same_number_in_both_kinds_gives_two_bindings() {
    let mut render_instances = RenderInstances::new();
    let user = MeshInstanceType::UserInstanced(0);
    let scene = MeshInstanceType::SceneInstanced(0);
    assert_eq!(render_instances.insert(&user, binding(1, 1, 1.0)), None);
    assert_eq!(render_instances.get(&scene), None);
    assert_eq!(render_instances.insert(&scene, binding(2, 1, 2.0)), None);
    assert_eq!(render_instances.get(&user), Some(binding(1, 1, 1.0)));
    assert_eq!(render_instances.get(&scene), Some(binding(2, 1, 2.0)));
    assert_eq!(render_instances.user_instance_count(), 1);
    assert_eq!(render_instances.scene_instance_count(), 1);
}

#[test]
fn key_is_the_number_inside() {
    assert_eq!(MeshInstanceType::UserInstanced(42).key(), 42);
    assert_eq!(MeshInstanceType::SceneInstanced(7).key(), 7);
    assert_eq!(MeshInstanceType::UserInstanced(u64::MAX).key(), u64::MAX);
}

#[test]
fn handles_of_a_binding() {
    let bound = MeshInstanceHandles::of_binding(Some(binding(4, 9, 0.0)));
    assert_eq!(bound.instance_handle(), Some(InstanceHandle(4)));
    assert_eq!(bound.mesh_handle(), Some(MeshHandle(9)));
    let unbound = MeshInstanceHandles::of_binding(None);
    assert_eq!(unbound.instance_handle(), None);
    assert_eq!(unbound.mesh_handle(), None);
    let half = MeshInstanceHandles::new(None, Some(MeshHandle(3)));
    assert_eq!(half.instance_handle(), None);
    assert_eq!(half.mesh_handle(), Some(MeshHandle(3)));
}

#[test]
fn baked_file_of_a_mesh() {
    let baked = MeshInstanceBaked::of_mesh("car");
    assert_eq!(baked.file_name(), "/baked/car.mesh");
}
