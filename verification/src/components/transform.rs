//! The spatial transform component.

use crate::math::Vec3Bits;
use vstd::prelude::*;

verus! {

/// The spatial state of an entity.  Translation and position are distinct
/// fields and are not combined here; callers decide how they compose.
/// Rotation is a triple of Euler angles in radians.
#[derive(Clone, Copy, Debug, PartialEq, Eq, Structural)]
pub struct TransformComponent {
    pub position: Vec3Bits,
    pub scale: Vec3Bits,
    pub rotation: Vec3Bits,
    pub translation: Vec3Bits,
}

} // verus!
