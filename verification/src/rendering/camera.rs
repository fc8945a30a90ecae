//! The CPU-side mirror of the GPU camera uniform.

use crate::components::camera::spec_view_projection;
use crate::components::camera::CameraComponent;
use crate::components::transform::TransformComponent;
use crate::math::matrix_bytes;
use crate::math::identity_matrix;
use crate::math::spec_identity_bits;
use crate::math::spec_matrix_bytes;
use crate::math::Mat4Bits;
use vstd::prelude::*;

verus! {

/// The camera uniform as the shader consumes it: one 4x4 matrix in
/// column-major 32-bit float layout, held here as bit patterns.  It is
/// derived, never hand-edited: always the view-projection of exactly one
/// framing and one transform, or the identity right after creation.
#[derive(Clone, Copy, Debug, PartialEq, Eq)]
pub struct CameraUniform {
    pub view_projection_matrix: Mat4Bits,
}

/// The uniform's bytes as they are uploaded to the GPU: the sixteen matrix
/// words, column-major, little-endian.
pub open spec fn spec_uniform_bytes(u: CameraUniform) -> Seq<u8> {
    spec_matrix_bytes(u.view_projection_matrix@)
}

impl CameraUniform {
    /// A fresh uniform holding the identity matrix.
    pub fn new() -> (r: Self)
        ensures
            r.view_projection_matrix@ == spec_identity_bits(),
    {
        CameraUniform { view_projection_matrix: identity_matrix() }
    }

    /// Recomputes the stored matrix from a framing and a transform.
    pub fn update_view_projection_matrix(
        &mut self,
        camera_component: &CameraComponent,
        transform_component: &TransformComponent,
    )
        ensures
            final(self).view_projection_matrix@ == spec_view_projection(
                *camera_component,
                *transform_component,
            ),
    {
        self.view_projection_matrix = camera_component.calculate_view_projection_matrix(
            transform_component,
        );
    }

    /// The bytes to upload: the stored matrix serialized column-major,
    /// little-endian.
    pub fn as_bytes(&self) -> (r: Vec<u8>)
        ensures
            r@ == spec_uniform_bytes(*self),
    {
        matrix_bytes(&self.view_projection_matrix)
    }
}

/// After a refresh from a framing and a transform, the uniform's stored
/// bytes are exactly the view-projection matrix of that pair, serialized
/// column-major.
pub proof fn lemma_refreshed_uniform_bytes(
    u: CameraUniform,
    camera: CameraComponent,
    transform: TransformComponent,
)
    requires
        u.view_projection_matrix@ == spec_view_projection(camera, transform),
    ensures
        spec_uniform_bytes(u) == spec_matrix_bytes(spec_view_projection(camera, transform)),
{
}

} // verus!
