use daedalus::components::input::InputComponent;
use daedalus::components::physics::PhysicsComponent;
use daedalus::components::transform::TransformComponent;
use daedalus::math::Vec3Bits;
use daedalus::physics::PhysicsService;
use daedalus::scene::Scene;

fn vec3_bits(x: f32, y: f32, z: f32) -> Vec3Bits {
    Vec3Bits { x: x.to_bits(), y: y.to_bits(), z: z.to_bits() }
}

fn vec3_of(v: Vec3Bits) -> (f32, f32, f32) {
    (f32::from_bits(v.x), f32::from_bits(v.y), f32::from_bits(v.z))
}

fn scene_with_moving_entity(up: bool) -> Scene {
    let mut scene = Scene::new();
    let e = scene.create_entity();
    scene.input_components.insert(
        e,
        InputComponent { up_pressed: up, down_pressed: false, left_pressed: false, right_pressed: false },
    );
    scene.physics_components.insert(
        e,
        PhysicsComponent {
            velocity: vec3_bits(0.0, 0.0, 0.0),
            acceleration: vec3_bits(0.0, 0.0, 0.0),
            speed: 5.0f32.to_bits(),
        },
    );
    scene.transform_components.insert(
        e,
        TransformComponent {
            position: vec3_bits(1.0, 2.0, 3.0),
            scale: vec3_bits(1.0, 1.0, 1.0),
            rotation: vec3_bits(0.0, 0.0, 0.0),
            translation: vec3_bits(0.0, 0.0, 0.0),
        },
    );
    scene
}

#[test]
fn held_key_accelerates_and_moves() {
    let mut scene = scene_with_moving_entity(true);
    let service = PhysicsService::new();
    let dt = 0.1f32;
    service.handle_physics(&mut scene, dt.to_bits());

    let p = scene.physics_components.get(1).unwrap();
    let expected_acc_y = 0.0f32 + 5.0f32;
    let expected_vel_y = 0.0f32 + expected_acc_y * dt;
    assert_eq!(vec3_of(p.acceleration), (0.0, expected_acc_y, 0.0));
    assert_eq!(vec3_of(p.velocity), (0.0f32 + 0.0f32 * dt, expected_vel_y, 0.0f32 + 0.0f32 * dt));

    let t = scene.transform_components.get(1).unwrap();
    let expected_pos_y = 2.0f32 + expected_vel_y * dt;
    assert_eq!(vec3_of(t.position), (1.0f32 + 0.0f32 * dt, expected_pos_y, 3.0));
}

#[test]
fn no_key_stops_movement() {
    let mut scene = scene_with_moving_entity(false);
    // Give the entity some existing velocity; with nothing held it must
    // be dropped to zero before the transform is advanced.
    let mut p = scene.physics_components.get(1).unwrap();
    p.velocity = vec3_bits(4.0, 4.0, 0.0);
    scene.physics_components.insert(1, p);

    let service = PhysicsService::new();
    service.handle_physics(&mut scene, 0.1f32.to_bits());

    let p = scene.physics_components.get(1).unwrap();
    assert_eq!(vec3_of(p.velocity), (0.0, 0.0, 0.0));
    let t = scene.transform_components.get(1).unwrap();
    assert_eq!(vec3_of(t.position), (1.0, 2.0, 3.0));
}

#[test]
fn entity_without_input_keeps_velocity_and_drifts() {
    let mut scene = Scene::new();
    let e = scene.create_entity();
    scene.physics_components.insert(
        e,
        PhysicsComponent {
            velocity: vec3_bits(2.0, 0.0, 0.0),
            acceleration: vec3_bits(0.0, 0.0, 0.0),
            speed: 5.0f32.to_bits(),
        },
    );
    scene.transform_components.insert(
        e,
        TransformComponent {
            position: vec3_bits(0.0, 0.0, 0.0),
            scale: vec3_bits(1.0, 1.0, 1.0),
            rotation: vec3_bits(0.0, 0.0, 0.0),
            translation: vec3_bits(0.0, 0.0, 0.0),
        },
    );
    let service = PhysicsService::new();
    let dt = 0.5f32;
    service.handle_physics(&mut scene, dt.to_bits());

    let p = scene.physics_components.get(1).unwrap();
    assert_eq!(vec3_of(p.velocity), (2.0, 0.0, 0.0));
    let t = scene.transform_components.get(1).unwrap();
    assert_eq!(vec3_of(t.position), (2.0 * dt, 0.0 + 0.0 * dt, 0.0));
}

#[test]
fn opposite_keys_cancel_acceleration() {
    let mut scene = scene_with_moving_entity(false);
    scene.input_components.insert(
        1,
        InputComponent { up_pressed: true, down_pressed: true, left_pressed: false, right_pressed: false },
    );
    let service = PhysicsService::new();
    service.handle_physics(&mut scene, 0.1f32.to_bits());
    let p = scene.physics_components.get(1).unwrap();
    let expected_acc_y = (0.0f32 + 5.0f32) - 5.0f32;
    assert_eq!(vec3_of(p.acceleration), (0.0, expected_acc_y, 0.0));
}
