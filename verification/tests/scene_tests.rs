use daedalus::components::input::InputComponent;
use daedalus::scene::setup_scene;
use daedalus::scene::ComponentMap;
use daedalus::scene::Scene;

fn pressed(up: bool, down: bool, left: bool, right: bool) -> InputComponent {
    InputComponent { up_pressed: up, down_pressed: down, left_pressed: left, right_pressed: right }
}

#[test]
fn entity_ids_start_at_one_and_grow() {
    let mut scene = Scene::new();
    assert_eq!(scene.create_entity(), 1);
    assert_eq!(scene.create_entity(), 2);
    assert_eq!(scene.create_entity(), 3);
}

#[test]
fn component_map_insert_and_get() {
    let mut map: ComponentMap<InputComponent> = ComponentMap::new();
    assert_eq!(map.len(), 0);
    assert_eq!(map.get(1), None);
    map.insert(1, pressed(true, false, false, false));
    map.insert(2, pressed(false, true, false, false));
    assert_eq!(map.len(), 2);
    assert_eq!(map.get(1), Some(pressed(true, false, false, false)));
    assert_eq!(map.get(2), Some(pressed(false, true, false, false)));
    assert_eq!(map.get(3), None);
}

#[test]
fn component_map_insert_replaces_existing_key() {
    let mut map: ComponentMap<InputComponent> = ComponentMap::new();
    map.insert(5, pressed(true, false, false, false));
    map.insert(5, pressed(false, false, false, true));
    assert_eq!(map.len(), 1);
    assert_eq!(map.get(5), Some(pressed(false, false, false, true)));
}

#[test]
fn component_map_keeps_insertion_order() {
    let mut map: ComponentMap<InputComponent> = ComponentMap::new();
    map.insert(9, pressed(false, false, false, false));
    map.insert(4, pressed(true, false, false, false));
    assert_eq!(map.key_at(0), 9);
    assert_eq!(map.key_at(1), 4);
    assert_eq!(map.value_at(1), pressed(true, false, false, false));
}

#[test]
fn bootstrap_scene_holds_the_default_camera() {
    let aspect = (800.0f32 / 600.0f32).to_bits();
    let scene = setup_scene(aspect);
    let camera = scene.camera_components.get(1).unwrap();
    assert_eq!(camera.field_of_view, 45.0f32.to_bits());
    assert_eq!(camera.z_near_field, 0.1f32.to_bits());
    assert_eq!(camera.z_far_field, 100.0f32.to_bits());
    assert_eq!(camera.aspect_ratio, aspect);
    assert_eq!(camera.up_orientation.y, 1.0f32.to_bits());
    assert_eq!(camera.look_at.x, 0.0f32.to_bits());
    let transform = scene.transform_components.get(1).unwrap();
    assert_eq!(transform.position.z, 2.0f32.to_bits());
    assert_eq!(transform.scale.x, 1.0f32.to_bits());
    assert_eq!(scene.input_components.get(1), Some(InputComponent::default()));
    assert_eq!(scene.physics_components.len(), 0);
}
