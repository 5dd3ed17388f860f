use bevy_kajiya_render::mesh::MeshInstanceType;
use bevy_kajiya_render::renderer::baked_mesh_path;
use bevy_kajiya_render::scene::{setup_scene_view, KajiyaSceneDescriptor, SceneDesc, SceneInstanceDesc};
use bevy_kajiya_render::transform::{InstanceTransform, Position, Rotation, ONE_BITS, ZERO_BITS};

fn bits(x: f32, y: f32, z: f32) -> [u32; 3] {
    [x.to_bits(), y.to_bits(), z.to_bits()]
}

fn declared(position: [u32; 3], mesh: &str) -> SceneInstanceDesc {
    SceneInstanceDesc { position, mesh: mesh.to_string() }
}

#[test]
fn default_descriptor_names_the_car_scene() {
    let descriptor = KajiyaSceneDescriptor::default();
    assert_eq!(descriptor.scene_name, "car");
    assert_eq!(f32::from_bits(descriptor.gi_volume_scale), 1.0);
}

#[test]
fn scene_file_of_the_default_scene() {
    let descriptor = KajiyaSceneDescriptor::default();
    assert_eq!(descriptor.scene_file(), "assets/scenes/car.ron");
}

#[test]
fn scene_file_keeps_the_name_as_it_is() {
    let descriptor = KajiyaSceneDescriptor {
        scene_name: "gas stations/№ 7".to_string(),
        gi_volume_scale: 0.5f32.to_bits(),
    };
    assert_eq!(descriptor.scene_file(), "assets/scenes/gas stations/№ 7.ron");
    let unnamed = KajiyaSceneDescriptor { scene_name: String::new(), gi_volume_scale: 0 };
    assert_eq!(unnamed.scene_file(), "assets/scenes/.ron");
}

#[test]
fn baked_mesh_path_follows_the_convention() {
    assert_eq!(baked_mesh_path("car"), "/baked/car.mesh");
    assert_eq!(baked_mesh_path(""), "/baked/.mesh");
    assert_eq!(baked_mesh_path("bäume/größe"), "/baked/bäume/größe.mesh");
}

#[test]
fn identity_rotation_is_zero_zero_zero_one() {
    let rotation = Rotation::identity();
    assert_eq!(f32::from_bits(rotation.x), 0.0);
    assert_eq!(f32::from_bits(rotation.y), 0.0);
    assert_eq!(f32::from_bits(rotation.z), 0.0);
    assert_eq!(f32::from_bits(rotation.w), 1.0);
    assert_eq!(rotation, Rotation { x: ZERO_BITS, y: ZERO_BITS, z: ZERO_BITS, w: ONE_BITS });
    assert_eq!(ONE_BITS, 0x3F80_0000);
}

#[test]
fn position_reads_the_array_in_order() {
    let position = Position::from_array(bits(1.5, -2.0, 3.25));
    assert_eq!(f32::from_bits(position.x), 1.5);
    assert_eq!(f32::from_bits(position.y), -2.0);
    assert_eq!(f32::from_bits(position.z), 3.25);
}

#[test]
fn setup_tracks_each_declared_instance_in_order() {
    let scene_desc = SceneDesc {
        instances: vec![
            declared(bits(0.0, 0.0, 0.0), "car"),
            declared(bits(1.0, 0.0, 0.0), "car"),
            declared(bits(-4.0, 2.5, 8.0), "tree"),
        ],
    };
    let (scene_instances, render_instances) = setup_scene_view(&scene_desc);
    assert_eq!(scene_instances.len(), 3);
    let names = ["car", "car", "tree"];
    for index in 0..3 {
        let extracted = &scene_instances[index].mesh_instance;
        assert_eq!(extracted.instance_type, MeshInstanceType::SceneInstanced(index));
        assert_eq!(extracted.mesh_name, names[index]);
        assert_eq!(
            extracted.transform,
            InstanceTransform {
                position: Position::from_array(scene_desc.instances[index].position),
                rotation: Rotation::identity(),
            }
        );
    }
    assert_eq!(f32::from_bits(scene_instances[2].mesh_instance.transform.position.y), 2.5);
    assert_eq!(render_instances.scene_instance_count(), 0);
    assert_eq!(render_instances.user_instance_count(), 0);
}

#[test]
fn setup_of_an_empty_scene_tracks_nothing() {
    let scene_desc = SceneDesc { instances: Vec::new() };
    let (scene_instances, render_instances) = setup_scene_view(&scene_desc);
    assert!(scene_instances.is_empty());
    assert_eq!(render_instances.scene_instance_count(), 0);
    assert_eq!(render_instances.user_instance_count(), 0);
}
