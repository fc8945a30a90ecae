//! The component records that the scene stores per entity.

pub mod camera;
pub mod input;
pub mod physics;
pub mod transform;
