//! The physics state component.

use crate::math::Vec3Bits;
use vstd::prelude::*;

verus! {

/// The kinematic state of an entity: velocity and acceleration vectors and
/// a scalar speed, all as 32-bit float bit patterns.
#[derive(Clone, Copy, Debug, PartialEq, Eq, Structural)]
pub struct PhysicsComponent {
    pub velocity: Vec3Bits,
    pub acceleration: Vec3Bits,
    pub speed: u32,
}

impl Default for PhysicsComponent {
    /// A fresh component: everything is the bit pattern of positive zero.
    fn default() -> (r: Self)
        ensures
            r == (PhysicsComponent {
                velocity: Vec3Bits { x: 0u32, y: 0u32, z: 0u32 },
                acceleration: Vec3Bits { x: 0u32, y: 0u32, z: 0u32 },
                speed: 0u32,
            }),
    {
        PhysicsComponent {
            velocity: Vec3Bits { x: 0, y: 0, z: 0 },
            acceleration: Vec3Bits { x: 0, y: 0, z: 0 },
            speed: 0,
        }
    }
}

} // verus!
