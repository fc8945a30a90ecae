//! The input service: maps key events onto the scene's input components
//! and decides when the application should exit.
//!
//! The platform layer translates its raw key codes into [`InputKey`] values
//! and performs the actual exit; the decisions are made here.

use crate::components::input::InputComponent;
use crate::scene::Scene;
use vstd::prelude::*;

verus! {

/// The keys the engine reacts to; everything else is `Other`.
#[derive(Clone, Copy, Debug, PartialEq, Eq, Structural)]
pub enum InputKey {
    Escape,
    ArrowUp,
    ArrowDown,
    ArrowLeft,
    ArrowRight,
    Other,
}

/// The input component after one key event is applied to it.
pub open spec fn spec_apply_key(c: InputComponent, code: InputKey, is_pressed: bool) -> InputComponent {
    match code {
        InputKey::ArrowUp => InputComponent { up_pressed: is_pressed, ..c },
        InputKey::ArrowDown => InputComponent { down_pressed: is_pressed, ..c },
        InputKey::ArrowLeft => InputComponent { left_pressed: is_pressed, ..c },
        InputKey::ArrowRight => InputComponent { right_pressed: is_pressed, ..c },
        InputKey::Escape => c,
        InputKey::Other => c,
    }
}

/// The service that folds key events into the scene.
pub struct InputService {}

impl InputService {
    /// Creates the service; it holds no state of its own.
    pub fn new() -> (r: Self) {
        InputService {  }
    }

    /// Applies one key event to every input component in the scene and
    /// reports whether an exit was requested.  An exit is requested by a
    /// pressed escape key, observed while walking the input components, so
    /// a scene without input components requests none.
    pub fn handle_input(&self, code: InputKey, is_pressed: bool, scene: &mut Scene) -> (exit_requested: bool)
        requires
            old(scene).wf(),
        ensures
            final(scene).wf(),
            final(scene).input_components@ == old(scene).input_components@.map(
                |i: int, kv: (u32, InputComponent)| (kv.0, spec_apply_key(kv.1, code, is_pressed)),
            ),
            final(scene).transform_components == old(scene).transform_components,
            final(scene).camera_components == old(scene).camera_components,
            final(scene).physics_components == old(scene).physics_components,
            final(scene).next_entity_id == old(scene).next_entity_id,
            exit_requested == (code is Escape && is_pressed && old(scene).input_components@.len()
                > 0),
    {
        let ghost s0 = scene.input_components@;
        let n = scene.input_components.len();
        let mut exit_requested = false;
        let mut i: usize = 0;
        while i < n
            invariant
                scene.wf(),
                n == scene.input_components@.len(),
                s0.len() == n,
                i <= n,
                s0 == old(scene).input_components@,
                forall|j: int|
                    0 <= j < i ==> scene.input_components@[j] == (
                        s0[j].0,
                        spec_apply_key(s0[j].1, code, is_pressed),
                    ),
                forall|j: int| i <= j < n ==> scene.input_components@[j] == s0[j],
                exit_requested == (code is Escape && is_pressed && i > 0),
                scene.transform_components == old(scene).transform_components,
                scene.camera_components == old(scene).camera_components,
                scene.physics_components == old(scene).physics_components,
                scene.next_entity_id == old(scene).next_entity_id,
            decreases n - i,
        {
            let c = scene.input_components.value_at(i);
            if matches!(code, InputKey::Escape) && is_pressed {
                exit_requested = true;
            }
            let updated = apply_key(c, code, is_pressed);
            scene.input_components.set_value_at(i, updated);
            i = i + 1;
        }
        proof {
            assert(scene.input_components@ =~= s0.map(
                |j: int, kv: (u32, InputComponent)| (kv.0, spec_apply_key(kv.1, code, is_pressed)),
            ));
        }
        exit_requested
    }
}

/// One key event applied to one input component.
fn apply_key(c: InputComponent, code: InputKey, is_pressed: bool) -> (r: InputComponent)
    ensures
        r == spec_apply_key(c, code, is_pressed),
{
    match code {
        InputKey::ArrowUp => InputComponent { up_pressed: is_pressed, ..c },
        InputKey::ArrowDown => InputComponent { down_pressed: is_pressed, ..c },
        InputKey::ArrowLeft => InputComponent { left_pressed: is_pressed, ..c },
        InputKey::ArrowRight => InputComponent { right_pressed: is_pressed, ..c },
        InputKey::Escape => c,
        InputKey::Other => c,
    }
}

} // verus!
