//! The input state component.

use vstd::prelude::*;

verus! {

/// The pressed state of the four directional keys, as last reported by the
/// input service.
#[derive(Clone, Copy, Debug, PartialEq, Eq, Structural)]
pub struct InputComponent {
    pub up_pressed: bool,
    pub down_pressed: bool,
    pub left_pressed: bool,
    pub right_pressed: bool,
}

impl Default for InputComponent {
    /// A fresh component: no key is pressed.
    fn default() -> (r: Self)
        ensures
            r == (InputComponent {
                up_pressed: false,
                down_pressed: false,
                left_pressed: false,
                right_pressed: false,
            }),
    {
        InputComponent { up_pressed: false, down_pressed: false, left_pressed: false, right_pressed: false }
    }
}

} // verus!
