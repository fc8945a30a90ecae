//! The camera framing component and the view-projection computation.

use crate::components::transform::TransformComponent;
use crate::math;
use crate::math::Mat4Bits;
use crate::math::Vec3Bits;
use vstd::prelude::*;

verus! {

/// The framing of a camera: the point it looks at, its up direction, and
/// the perspective parameters.  All scalars are 32-bit float bit patterns;
/// the field of view is in degrees.
#[derive(Clone, Copy, Debug, PartialEq, Eq, Structural)]
pub struct CameraComponent {
    pub look_at: Vec3Bits,
    pub up_orientation: Vec3Bits,
    pub aspect_ratio: u32,
    pub field_of_view: u32,
    pub z_near_field: u32,
    pub z_far_field: u32,
}

/// The column-major bit patterns of the combined view-projection matrix:
/// the fixed depth-range remap times the right-handed perspective
/// projection built from the framing (field of view converted from degrees
/// to radians), times the right-handed view matrix whose eye is the
/// transform's position, multiplied left to right.
pub open spec fn spec_view_projection(camera: CameraComponent, transform: TransformComponent) -> Seq<
    u32,
> {
    math::mat4_mul_of(
        math::mat4_mul_of(
            math::spec_depth_remap_bits(),
            math::perspective_rh_of(
                math::radians_of(camera.field_of_view),
                camera.aspect_ratio,
                camera.z_near_field,
                camera.z_far_field,
            ),
        ),
        math::look_at_rh_of(
            transform.position@,
            camera.look_at@,
            camera.up_orientation@,
        ),
    )
}

impl CameraComponent {
    /// Computes the combined view-projection matrix for this framing and
    /// the given transform.
    pub fn calculate_view_projection_matrix(&self, transform_component: &TransformComponent) -> (r:
        Mat4Bits)
        ensures
            r@ == spec_view_projection(*self, *transform_component),
    {
        let view_matrix = math::look_at_rh(
            &transform_component.position,
            &self.look_at,
            &self.up_orientation,
        );
        let fov_y_radians = math::degrees_to_radians(self.field_of_view);
        let projection_matrix = math::perspective_rh(
            fov_y_radians,
            self.aspect_ratio,
            self.z_near_field,
            self.z_far_field,
        );
        let remap = math::depth_remap_matrix();
        math::mat4_mul(&math::mat4_mul(&remap, &projection_matrix), &view_matrix)
    }
}

} // verus!
