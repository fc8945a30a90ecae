//! The physics service: folds the input state into each entity's
//! acceleration, velocity and position, one bounded pass per frame.
//!
//! All float arithmetic is carried out on bit patterns through the trusted
//! operations of [`crate::math`]; the pass itself — which entities change,
//! from which inputs, in which order — is verified exactly.

use crate::components::input::InputComponent;
use crate::components::physics::PhysicsComponent;
use crate::components::transform::TransformComponent;
use crate::math;
use crate::math::Vec3Bits;
use crate::scene::lemma_unique_get;
use crate::scene::seq_contains_key;
use crate::scene::seq_get;
use crate::scene::Scene;
use vstd::prelude::*;

verus! {

/// True when any directional key is held.
pub open spec fn spec_any_direction_pressed(inp: InputComponent) -> bool {
    inp.up_pressed || inp.down_pressed || inp.left_pressed || inp.right_pressed
}

/// The acceleration rebuilt from the held keys: reset to zero, then each
/// held direction adds or subtracts the entity's speed on its axis, in the
/// order up, down, left, right.
pub open spec fn spec_input_acceleration(speed: u32, inp: InputComponent) -> Vec3Bits {
    let a0 = Vec3Bits { x: 0u32, y: 0u32, z: 0u32 };
    let a1 = if inp.up_pressed {
        Vec3Bits { y: math::f32_add_of(a0.y, speed), ..a0 }
    } else {
        a0
    };
    let a2 = if inp.down_pressed {
        Vec3Bits { y: math::f32_sub_of(a1.y, speed), ..a1 }
    } else {
        a1
    };
    let a3 = if inp.left_pressed {
        Vec3Bits { x: math::f32_sub_of(a2.x, speed), ..a2 }
    } else {
        a2
    };
    if inp.right_pressed {
        Vec3Bits { x: math::f32_add_of(a3.x, speed), ..a3 }
    } else {
        a3
    }
}

/// One physics step for an entity that has an input component: the
/// acceleration is rebuilt from the held keys; while something is held the
/// velocity integrates the acceleration over the frame time, otherwise the
/// movement stops.
pub open spec fn spec_physics_step(p: PhysicsComponent, inp: InputComponent, delta_time: u32) -> PhysicsComponent {
    let acceleration = spec_input_acceleration(p.speed, inp);
    let velocity = if spec_any_direction_pressed(inp) {
        Vec3Bits {
            x: math::f32_add_of(p.velocity.x, math::f32_mul_of(acceleration.x, delta_time)),
            y: math::f32_add_of(p.velocity.y, math::f32_mul_of(acceleration.y, delta_time)),
            z: math::f32_add_of(p.velocity.z, math::f32_mul_of(acceleration.z, delta_time)),
        }
    } else {
        Vec3Bits { x: 0u32, y: 0u32, z: 0u32 }
    };
    PhysicsComponent { velocity, acceleration, speed: p.speed }
}

/// The physics component after the pass: stepped when the entity has an
/// input component, untouched otherwise.
pub open spec fn spec_new_physics(
    p: PhysicsComponent,
    inp: Option<InputComponent>,
    delta_time: u32,
) -> PhysicsComponent {
    match inp {
        Some(i) => spec_physics_step(p, i, delta_time),
        None => p,
    }
}

/// The position advanced by the velocity over the frame time, on the X and
/// Y axes.
pub open spec fn spec_position_step(t: TransformComponent, velocity: Vec3Bits, delta_time: u32) -> TransformComponent {
    TransformComponent {
        position: Vec3Bits {
            x: math::f32_add_of(t.position.x, math::f32_mul_of(velocity.x, delta_time)),
            y: math::f32_add_of(t.position.y, math::f32_mul_of(velocity.y, delta_time)),
            z: t.position.z,
        },
        ..t
    }
}

/// The transform stored for `key` after the pass: advanced by the stepped
/// velocity of that entity's physics component when there is one, untouched
/// otherwise.
pub open spec fn spec_new_transform(
    t: TransformComponent,
    physics0: Seq<(u32, PhysicsComponent)>,
    input0: Seq<(u32, InputComponent)>,
    key: u32,
    delta_time: u32,
) -> TransformComponent {
    match seq_get(physics0, key) {
        Some(p) => spec_position_step(
            t,
            spec_new_physics(p, seq_get(input0, key), delta_time).velocity,
            delta_time,
        ),
        None => t,
    }
}

/// The transform stored for the entry `kv` while the first `i` physics
/// entries have been processed.
spec fn spec_partial_transform(
    kv: (u32, TransformComponent),
    physics0: Seq<(u32, PhysicsComponent)>,
    input0: Seq<(u32, InputComponent)>,
    i: int,
    delta_time: u32,
) -> TransformComponent {
    if seq_contains_key(physics0.take(i), kv.0) {
        spec_new_transform(kv.1, physics0, input0, kv.0, delta_time)
    } else {
        kv.1
    }
}

/// Processing one more physics entry makes exactly its key count as
/// processed.
proof fn lemma_contains_take_step<V>(s: Seq<(u32, V)>, i: int, key: u32)
    requires
        0 <= i < s.len(),
    ensures
        seq_contains_key(s.take(i + 1), key) <==> (seq_contains_key(s.take(i), key) || s[i].0
            == key),
{
    let a = s.take(i + 1);
    let b = s.take(i);
    if seq_contains_key(a, key) {
        let j = choose|j: int| 0 <= j < a.len() && a[j].0 == key;
        if j < i {
            assert(b[j].0 == key);
            assert(seq_contains_key(b, key));
        } else {
            assert(a[j] == s[i]);
        }
    }
    if seq_contains_key(b, key) {
        let j = choose|j: int| 0 <= j < b.len() && b[j].0 == key;
        assert(a[j].0 == key);
        assert(seq_contains_key(a, key));
    }
    if s[i].0 == key {
        assert(a[i].0 == key);
        assert(seq_contains_key(a, key));
    }
}

/// The service that advances the scene's kinematics each frame.
pub struct PhysicsService {}

impl PhysicsService {
    /// Creates the service; it holds no state of its own.
    pub fn new() -> (r: Self) {
        PhysicsService {  }
    }

    /// One physics pass over the scene: every physics component is stepped
    /// against its entity's input component, and every transform whose
    /// entity has a physics component is advanced by the stepped velocity.
    /// `delta_time` is the frame time in seconds, as a float bit pattern.
    pub fn handle_physics(&self, scene: &mut Scene, delta_time: u32)
        requires
            old(scene).wf(),
        ensures
            final(scene).wf(),
            final(scene).physics_components@ == old(scene).physics_components@.map(
                |i: int, kv: (u32, PhysicsComponent)|
                    (
                        kv.0,
                        spec_new_physics(
                            kv.1,
                            seq_get(old(scene).input_components@, kv.0),
                            delta_time,
                        ),
                    ),
            ),
            final(scene).transform_components@ == old(scene).transform_components@.map(
                |i: int, kv: (u32, TransformComponent)|
                    (
                        kv.0,
                        spec_new_transform(
                            kv.1,
                            old(scene).physics_components@,
                            old(scene).input_components@,
                            kv.0,
                            delta_time,
                        ),
                    ),
            ),
            final(scene).camera_components == old(scene).camera_components,
            final(scene).input_components == old(scene).input_components,
            final(scene).next_entity_id == old(scene).next_entity_id,
    {
        let ghost p0 = scene.physics_components@;
        let ghost t0 = scene.transform_components@;
        let ghost in0 = scene.input_components@;
        let n = scene.physics_components.len();
        let mut i: usize = 0;
        while i < n
            invariant
                scene.wf(),
                i <= n,
                n == p0.len(),
                scene.physics_components@.len() == n,
                p0 == old(scene).physics_components@,
                t0 == old(scene).transform_components@,
                in0 == old(scene).input_components@,
                crate::scene::seq_keys_unique(p0),
                crate::scene::seq_keys_unique(t0),
                scene.input_components == old(scene).input_components,
                scene.camera_components == old(scene).camera_components,
                scene.next_entity_id == old(scene).next_entity_id,
                forall|j: int|
                    0 <= j < i ==> scene.physics_components@[j] == (
                        p0[j].0,
                        spec_new_physics(p0[j].1, seq_get(in0, p0[j].0), delta_time),
                    ),
                forall|j: int| i <= j < n ==> scene.physics_components@[j] == p0[j],
                scene.transform_components@.len() == t0.len(),
                forall|j: int| 0 <= j < t0.len() ==> scene.transform_components@[j].0 == t0[j].0,
                forall|j: int|
                    0 <= j < t0.len() ==> scene.transform_components@[j].1
                        == spec_partial_transform(t0[j], p0, in0, i as int, delta_time),
            decreases n - i,
        {
            let entity = scene.physics_components.key_at(i);
            let p = scene.physics_components.value_at(i);
            let inp_opt = scene.input_components.get(entity);
            proof {
                assert(inp_opt == seq_get(in0, entity));
            }
            let new_p = match inp_opt {
                Some(inp) => physics_step(p, inp, delta_time),
                None => p,
            };
            scene.physics_components.set_value_at(i, new_p);
            proof {
                lemma_unique_get(p0, entity, i as int);
            }
            match scene.transform_components.index_of(entity) {
                Some(j) => {
                    let t = scene.transform_components.value_at(j);
                    proof {
                        assert(t0[j as int].0 == entity);
                        assert(forall|k: int| 0 <= k < i ==> p0[k].0 != entity);
                        assert(!seq_contains_key(p0.take(i as int), entity));
                        assert(t == t0[j as int].1);
                    }
                    let new_t = position_step(t, new_p.velocity, delta_time);
                    scene.transform_components.set_value_at(j, new_t);
                    proof {
                        assert(new_t == spec_new_transform(
                            t0[j as int].1,
                            p0,
                            in0,
                            entity,
                            delta_time,
                        ));
                        assert forall|j2: int| 0 <= j2 < t0.len() implies scene
                            .transform_components@[j2].1 == spec_partial_transform(
                            t0[j2],
                            p0,
                            in0,
                            i + 1,
                            delta_time,
                        ) by {
                            lemma_contains_take_step(p0, i as int, t0[j2].0);
                            if j2 != j {
                                assert(t0[j2].0 != entity);
                            }
                        }
                    }
                },
                None => {
                    proof {
                        assert forall|j2: int| 0 <= j2 < t0.len() implies scene
                            .transform_components@[j2].1 == spec_partial_transform(
                            t0[j2],
                            p0,
                            in0,
                            i + 1,
                            delta_time,
                        ) by {
                            lemma_contains_take_step(p0, i as int, t0[j2].0);
                            assert(t0[j2].0 != entity);
                        }
                    }
                },
            }
            i = i + 1;
        }
        proof {
            assert(p0.take(n as int) =~= p0);
            assert(scene.physics_components@ =~= p0.map(
                |j: int, kv: (u32, PhysicsComponent)|
                    (kv.0, spec_new_physics(kv.1, seq_get(in0, kv.0), delta_time)),
            ));
            assert forall|j: int| 0 <= j < t0.len() implies scene.transform_components@[j]
                == (t0[j].0, spec_new_transform(t0[j].1, p0, in0, t0[j].0, delta_time)) by {
                if !seq_contains_key(p0, t0[j].0) {
                    assert(seq_get(p0, t0[j].0) is None);
                }
            }
            assert(scene.transform_components@ =~= t0.map(
                |j: int, kv: (u32, TransformComponent)|
                    (kv.0, spec_new_transform(kv.1, p0, in0, kv.0, delta_time)),
            ));
        }
    }
}

/// One physics step, mirroring [`spec_physics_step`].
fn physics_step(p: PhysicsComponent, inp: InputComponent, delta_time: u32) -> (r: PhysicsComponent)
    ensures
        r == spec_physics_step(p, inp, delta_time),
{
    let mut acceleration = Vec3Bits { x: 0, y: 0, z: 0 };
    let mut something_pressed = false;
    if inp.up_pressed {
        acceleration.y = math::f32_add(acceleration.y, p.speed);
        something_pressed = true;
    }
    if inp.down_pressed {
        acceleration.y = math::f32_sub(acceleration.y, p.speed);
        something_pressed = true;
    }
    if inp.left_pressed {
        acceleration.x = math::f32_sub(acceleration.x, p.speed);
        something_pressed = true;
    }
    if inp.right_pressed {
        acceleration.x = math::f32_add(acceleration.x, p.speed);
        something_pressed = true;
    }
    let velocity = if something_pressed {
        Vec3Bits {
            x: math::f32_add(p.velocity.x, math::f32_mul(acceleration.x, delta_time)),
            y: math::f32_add(p.velocity.y, math::f32_mul(acceleration.y, delta_time)),
            z: math::f32_add(p.velocity.z, math::f32_mul(acceleration.z, delta_time)),
        }
    } else {
        Vec3Bits { x: 0, y: 0, z: 0 }
    };
    PhysicsComponent { velocity, acceleration, speed: p.speed }
}

/// One position step, mirroring [`spec_position_step`].
fn position_step(t: TransformComponent, velocity: Vec3Bits, delta_time: u32) -> (r: TransformComponent)
    ensures
        r == spec_position_step(t, velocity, delta_time),
{
    let position = Vec3Bits {
        x: math::f32_add(t.position.x, math::f32_mul(velocity.x, delta_time)),
        y: math::f32_add(t.position.y, math::f32_mul(velocity.y, delta_time)),
        z: t.position.z,
    };
    TransformComponent { position, ..t }
}

} // verus!
