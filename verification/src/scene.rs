//! Entity storage: an ordered association from entity identifiers to
//! component records, and the scene that groups one such map per component
//! kind.

use crate::components::camera::CameraComponent;
use crate::components::input::InputComponent;
use crate::components::physics::PhysicsComponent;
use crate::components::transform::TransformComponent;
use crate::math::Vec3Bits;
use crate::math::F32_ONE_BITS;
use vstd::prelude::*;

verus! {

/// Bit pattern of the IEEE-754 single-precision value two.
pub const F32_TWO_BITS: u32 = 0x4000_0000;

/// Bit pattern of the value forty-five: the bootstrap camera's field of
/// view in degrees.
pub const F32_FORTY_FIVE_BITS: u32 = 0x4234_0000;

/// Bit pattern of the value one tenth: the bootstrap camera's near clip
/// distance.
pub const F32_ONE_TENTH_BITS: u32 = 0x3DCC_CCCD;

/// Bit pattern of the value one hundred: the bootstrap camera's far clip
/// distance.
pub const F32_ONE_HUNDRED_BITS: u32 = 0x42C8_0000;

/// True when the entry at `i` is the one for `key`.
pub open spec fn seq_contains_key<V>(s: Seq<(u32, V)>, key: u32) -> bool {
    exists|i: int| 0 <= i < s.len() && s[i].0 == key
}

/// The index of the entry for `key`; meaningful only when the key is
/// present and the keys are unique.
pub open spec fn seq_key_index<V>(s: Seq<(u32, V)>, key: u32) -> int {
    choose|i: int| 0 <= i < s.len() && s[i].0 == key
}

/// The value stored for `key`, if any.
pub open spec fn seq_get<V>(s: Seq<(u32, V)>, key: u32) -> Option<V> {
    if seq_contains_key(s, key) {
        Some(s[seq_key_index(s, key)].1)
    } else {
        None
    }
}

/// No two entries share a key.
pub open spec fn seq_keys_unique<V>(s: Seq<(u32, V)>) -> bool {
    forall|i: int, j: int| 0 <= i < j < s.len() ==> s[i].0 != s[j].0
}

/// With unique keys, any entry whose key matches is the entry `seq_get`
/// speaks of.
pub proof fn lemma_unique_get<V>(s: Seq<(u32, V)>, key: u32, i: int)
    requires
        seq_keys_unique(s),
        0 <= i < s.len(),
        s[i].0 == key,
    ensures
        seq_contains_key(s, key),
        seq_key_index(s, key) == i,
        seq_get(s, key) == Some(s[i].1),
{
    assert(seq_contains_key(s, key));
    let j = seq_key_index(s, key);
    assert(0 <= j < s.len() && s[j].0 == key);
    if i < j {
        assert(s[i].0 != s[j].0);
    }
    if j < i {
        assert(s[j].0 != s[i].0);
    }
}

/// An association from entity identifiers to component records, kept in
/// insertion order with unique keys.
#[derive(Clone, Debug)]
pub struct ComponentMap<V> {
    entries: Vec<(u32, V)>,
}

impl<V> View for ComponentMap<V> {
    type V = Seq<(u32, V)>;

    closed spec fn view(&self) -> Seq<(u32, V)> {
        self.entries@
    }
}

impl<V: Copy> ComponentMap<V> {
    /// Entry keys never repeat.
    pub open spec fn wf(&self) -> bool {
        seq_keys_unique(self@)
    }

    /// An empty map.
    pub fn new() -> (r: Self)
        ensures
            r@ == Seq::<(u32, V)>::empty(),
            r.wf(),
    {
        let r = ComponentMap { entries: Vec::new() };
        proof {
            assert(r@ =~= Seq::<(u32, V)>::empty());
        }
        r
    }

    /// The number of entries.
    pub fn len(&self) -> (n: usize)
        ensures
            n == self@.len(),
    {
        self.entries.len()
    }

    /// The key of the entry at position `i`.
    pub fn key_at(&self, i: usize) -> (key: u32)
        requires
            i < self@.len(),
        ensures
            key == self@[i as int].0,
    {
        self.entries[i].0
    }

    /// The value of the entry at position `i`.
    pub fn value_at(&self, i: usize) -> (value: V)
        requires
            i < self@.len(),
        ensures
            value == self@[i as int].1,
    {
        self.entries[i].1
    }

    /// Replaces the value of the entry at position `i`, keeping its key.
    pub fn set_value_at(&mut self, i: usize, value: V)
        requires
            i < old(self)@.len(),
        ensures
            final(self)@ == old(self)@.update(i as int, (old(self)@[i as int].0, value)),
            old(self).wf() ==> final(self).wf(),
    {
        let key = self.entries[i].0;
        self.entries.set(i, (key, value));
    }

    /// The position of the entry for `key`, if any.
    pub fn index_of(&self, key: u32) -> (r: Option<usize>)
        ensures
            match r {
                Some(i) => i < self@.len() && self@[i as int].0 == key,
                None => !seq_contains_key(self@, key),
            },
    {
        let n = self.entries.len();
        let mut i: usize = 0;
        while i < n
            invariant
                n == self@.len(),
                i <= n,
                forall|j: int| 0 <= j < i ==> self@[j].0 != key,
            decreases n - i,
        {
            if self.entries[i].0 == key {
                return Some(i);
            }
            i = i + 1;
        }
        None
    }

    /// The value stored for `key`, if any.
    pub fn get(&self, key: u32) -> (r: Option<V>)
        requires
            self.wf(),
        ensures
            r == seq_get(self@, key),
    {
        match self.index_of(key) {
            Some(i) => {
                proof {
                    lemma_unique_get(self@, key, i as int);
                }
                Some(self.entries[i].1)
            },
            None => None,
        }
    }

    /// Stores `value` for `key`: replaces the existing entry in place, or
    /// appends a new entry.
    pub fn insert(&mut self, key: u32, value: V)
        requires
            old(self).wf(),
        ensures
            final(self).wf(),
            final(self)@ == if seq_contains_key(old(self)@, key) {
                old(self)@.update(seq_key_index(old(self)@, key), (key, value))
            } else {
                old(self)@.push((key, value))
            },
            seq_get(final(self)@, key) == Some(value),
            forall|k: u32| k != key ==> seq_get(final(self)@, k) == seq_get(old(self)@, k),
    {
        let ghost s = self@;
        match self.index_of(key) {
            Some(i) => {
                self.entries.set(i, (key, value));
                proof {
                    lemma_unique_get(s, key, i as int);
                    lemma_insert_update(s, key, value, i as int);
                }
            },
            None => {
                self.entries.push((key, value));
                proof {
                    lemma_insert_push(s, key, value);
                }
            },
        }
    }
}

/// Replacing the entry for `key` in place keeps the keys unique and leaves
/// every other key's value unchanged.
proof fn lemma_insert_update<V>(s: Seq<(u32, V)>, key: u32, value: V, i: int)
    requires
        seq_keys_unique(s),
        0 <= i < s.len(),
        s[i].0 == key,
    ensures
        seq_keys_unique(s.update(i, (key, value))),
        seq_get(s.update(i, (key, value)), key) == Some(value),
        forall|k: u32| k != key ==> seq_get(s.update(i, (key, value)), k) == seq_get(s, k),
{
    let t = s.update(i, (key, value));
    assert(forall|j: int| 0 <= j < s.len() ==> t[j].0 == s[j].0);
    assert(seq_keys_unique(t));
    lemma_unique_get(t, key, i);
    assert forall|k: u32| k != key implies seq_get(t, k) == seq_get(s, k) by {
        if seq_contains_key(s, k) {
            let j = seq_key_index(s, k);
            assert(0 <= j < s.len() && s[j].0 == k);
            assert(j != i);
            lemma_unique_get(s, k, j);
            lemma_unique_get(t, k, j);
        } else {
            assert(forall|j: int| 0 <= j < t.len() ==> t[j].0 == s[j].0);
            assert(!seq_contains_key(t, k));
        }
    }
}

/// Appending an entry for a fresh key keeps the keys unique, makes the new
/// value the one stored for that key, and leaves every other key's value
/// unchanged.
proof fn lemma_insert_push<V>(s: Seq<(u32, V)>, key: u32, value: V)
    requires
        seq_keys_unique(s),
        !seq_contains_key(s, key),
    ensures
        seq_keys_unique(s.push((key, value))),
        seq_get(s.push((key, value)), key) == Some(value),
        forall|k: u32| k != key ==> seq_get(s.push((key, value)), k) == seq_get(s, k),
{
    let t = s.push((key, value));
    assert(forall|j: int| 0 <= j < s.len() ==> t[j] == s[j]);
    assert(forall|j: int| 0 <= j < s.len() ==> t[j].0 != key);
    assert(t[s.len() as int].0 == key);
    assert(seq_keys_unique(t));
    lemma_unique_get(t, key, s.len() as int);
    assert forall|k: u32| k != key implies seq_get(t, k) == seq_get(s, k) by {
        if seq_contains_key(s, k) {
            let j = seq_key_index(s, k);
            lemma_unique_get(s, k, j);
            lemma_unique_get(t, k, j);
        } else {
            assert(forall|j: int| 0 <= j < t.len() && j != s.len() ==> t[j].0 == s[j].0);
            assert(!seq_contains_key(t, k));
        }
    }
}

/// The scene: per-kind component storage and the source of fresh entity
/// identifiers.
#[derive(Clone, Debug)]
pub struct Scene {
    pub next_entity_id: u32,
    pub transform_components: ComponentMap<TransformComponent>,
    pub camera_components: ComponentMap<CameraComponent>,
    pub input_components: ComponentMap<InputComponent>,
    pub physics_components: ComponentMap<PhysicsComponent>,
}

impl Scene {
    /// Every component map has unique keys.
    pub open spec fn wf(&self) -> bool {
        &&& self.transform_components.wf()
        &&& self.camera_components.wf()
        &&& self.input_components.wf()
        &&& self.physics_components.wf()
    }

    /// An empty scene.  Entity identifiers start at one.
    pub fn new() -> (r: Scene)
        ensures
            r.wf(),
            r.next_entity_id == 0,
            r.transform_components@ == Seq::<(u32, TransformComponent)>::empty(),
            r.camera_components@ == Seq::<(u32, CameraComponent)>::empty(),
            r.input_components@ == Seq::<(u32, InputComponent)>::empty(),
            r.physics_components@ == Seq::<(u32, PhysicsComponent)>::empty(),
    {
        Scene {
            next_entity_id: 0,
            transform_components: ComponentMap::new(),
            camera_components: ComponentMap::new(),
            input_components: ComponentMap::new(),
            physics_components: ComponentMap::new(),
        }
    }

    /// Allocates the next entity identifier.  Identifiers are unique,
    /// monotonically assigned starting at one, and never reused.
    pub fn create_entity(&mut self) -> (id: u32)
        requires
            old(self).next_entity_id < u32::MAX,
        ensures
            id == old(self).next_entity_id + 1,
            final(self).next_entity_id == id,
            final(self).transform_components == old(self).transform_components,
            final(self).camera_components == old(self).camera_components,
            final(self).input_components == old(self).input_components,
            final(self).physics_components == old(self).physics_components,
    {
        self.next_entity_id = self.next_entity_id + 1;
        self.next_entity_id
    }
}

/// The framing the bootstrap scene gives its camera: looking at the
/// origin, up the positive Y axis, a forty-five degree field of view, the
/// given aspect ratio, and clip distances of one tenth and one hundred.
pub open spec fn spec_bootstrap_camera(aspect_ratio: u32) -> CameraComponent {
    CameraComponent {
        look_at: Vec3Bits { x: 0u32, y: 0u32, z: 0u32 },
        up_orientation: Vec3Bits { x: 0u32, y: F32_ONE_BITS, z: 0u32 },
        aspect_ratio,
        field_of_view: F32_FORTY_FIVE_BITS,
        z_near_field: F32_ONE_TENTH_BITS,
        z_far_field: F32_ONE_HUNDRED_BITS,
    }
}

/// The transform the bootstrap scene gives its camera entity: two units
/// out of the screen on the positive Z axis, unit scale, no rotation, no
/// translation.
pub open spec fn spec_bootstrap_transform() -> TransformComponent {
    TransformComponent {
        position: Vec3Bits { x: 0u32, y: 0u32, z: F32_TWO_BITS },
        scale: Vec3Bits { x: F32_ONE_BITS, y: F32_ONE_BITS, z: F32_ONE_BITS },
        rotation: Vec3Bits { x: 0u32, y: 0u32, z: 0u32 },
        translation: Vec3Bits { x: 0u32, y: 0u32, z: 0u32 },
    }
}

/// The bootstrap scene: one entity carrying an input component with
/// nothing pressed, the default camera framing with the given aspect
/// ratio, and the default transform.  The entity gets the first
/// identifier, which is the one the rendering service reads the main
/// camera from.
pub fn setup_scene(aspect_ratio: u32) -> (r: Scene)
    ensures
        r.wf(),
        r.next_entity_id == 1,
        r.input_components@ == seq![
            (
                1u32,
                InputComponent {
                    up_pressed: false,
                    down_pressed: false,
                    left_pressed: false,
                    right_pressed: false,
                },
            ),
        ],
        r.camera_components@ == seq![(1u32, spec_bootstrap_camera(aspect_ratio))],
        r.transform_components@ == seq![(1u32, spec_bootstrap_transform())],
        r.physics_components@ == Seq::<(u32, PhysicsComponent)>::empty(),
{
    let mut scene = Scene::new();
    let test_entity = scene.create_entity();
    scene.input_components.insert(test_entity, InputComponent::default());
    scene.camera_components.insert(
        test_entity,
        CameraComponent {
            look_at: Vec3Bits { x: 0, y: 0, z: 0 },
            up_orientation: Vec3Bits { x: 0, y: F32_ONE_BITS, z: 0 },
            aspect_ratio,
            field_of_view: F32_FORTY_FIVE_BITS,
            z_near_field: F32_ONE_TENTH_BITS,
            z_far_field: F32_ONE_HUNDRED_BITS,
        },
    );
    scene.transform_components.insert(
        test_entity,
        TransformComponent {
            position: Vec3Bits { x: 0, y: 0, z: F32_TWO_BITS },
            scale: Vec3Bits { x: F32_ONE_BITS, y: F32_ONE_BITS, z: F32_ONE_BITS },
            rotation: Vec3Bits { x: 0, y: 0, z: 0 },
            translation: Vec3Bits { x: 0, y: 0, z: 0 },
        },
    );
    proof {
        assert(scene.input_components@ =~= seq![
            (
                1u32,
                InputComponent {
                    up_pressed: false,
                    down_pressed: false,
                    left_pressed: false,
                    right_pressed: false,
                },
            ),
        ]);
        assert(scene.camera_components@ =~= seq![(1u32, spec_bootstrap_camera(aspect_ratio))]);
        assert(scene.transform_components@ =~= seq![(1u32, spec_bootstrap_transform())]);
    }
    scene
}

} // verus!
