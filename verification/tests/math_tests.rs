use daedalus::components::camera::CameraComponent;
use daedalus::components::transform::TransformComponent;
use daedalus::math::depth_remap_matrix;
use daedalus::math::degrees_to_radians;
use daedalus::math::f32_add;
use daedalus::math::f32_mul;
use daedalus::math::f32_sub;
use daedalus::math::identity_matrix;
use daedalus::math::look_at_rh;
use daedalus::math::mat4_mul;
use daedalus::math::matrix_bytes;
use daedalus::math::perspective_rh;
use daedalus::math::Mat4Bits;
use daedalus::math::Vec3Bits;

fn vec3_bits(x: f32, y: f32, z: f32) -> Vec3Bits {
    Vec3Bits { x: x.to_bits(), y: y.to_bits(), z: z.to_bits() }
}

fn mat_to_bits(m: glam::Mat4) -> [u32; 16] {
    let mut out = [0u32; 16];
    for (i, v) in m.to_cols_array().iter().enumerate() {
        out[i] = v.to_bits();
    }
    out
}

fn depth_remap_glam() -> glam::Mat4 {
    glam::Mat4::from_cols(
        glam::Vec4::new(1.0, 0.0, 0.0, 0.0),
        glam::Vec4::new(0.0, 1.0, 0.0, 0.0),
        glam::Vec4::new(0.0, 0.0, 0.5, 0.0),
        glam::Vec4::new(0.0, 0.0, 0.5, 1.0),
    )
}

#[test]
fn identity_matrix_matches_glam() {
    assert_eq!(identity_matrix().entries, mat_to_bits(glam::Mat4::IDENTITY));
}

#[test]
fn depth_remap_matrix_matches_fixed_constant() {
    assert_eq!(depth_remap_matrix().entries, mat_to_bits(depth_remap_glam()));
}

#[test]
fn degrees_to_radians_matches_f32() {
    assert_eq!(degrees_to_radians(45.0f32.to_bits()), 45.0f32.to_radians().to_bits());
    assert_eq!(degrees_to_radians(0.0f32.to_bits()), 0.0f32.to_bits());
}

#[test]
fn scalar_ops_match_f32() {
    let a = 1.5f32;
    let b = 0.1f32;
    assert_eq!(f32_add(a.to_bits(), b.to_bits()), (a + b).to_bits());
    assert_eq!(f32_sub(a.to_bits(), b.to_bits()), (a - b).to_bits());
    assert_eq!(f32_mul(a.to_bits(), b.to_bits()), (a * b).to_bits());
}

#[test]
fn look_at_matches_glam() {
    let eye = vec3_bits(0.0, 0.0, 2.0);
    let center = vec3_bits(0.0, 0.0, 0.0);
    let up = vec3_bits(0.0, 1.0, 0.0);
    let expected = glam::Mat4::look_at_rh(
        glam::Vec3::new(0.0, 0.0, 2.0),
        glam::Vec3::ZERO,
        glam::Vec3::Y,
    );
    assert_eq!(look_at_rh(&eye, &center, &up).entries, mat_to_bits(expected));
}

#[test]
fn perspective_matches_glam() {
    let fov = 45.0f32.to_radians();
    let expected = glam::Mat4::perspective_rh(fov, 800.0 / 600.0, 0.1, 100.0);
    let got = perspective_rh(
        fov.to_bits(),
        (800.0f32 / 600.0f32).to_bits(),
        0.1f32.to_bits(),
        100.0f32.to_bits(),
    );
    assert_eq!(got.entries, mat_to_bits(expected));
}

#[test]
fn mat4_mul_matches_glam() {
    let a = glam::Mat4::perspective_rh(0.8, 1.5, 0.1, 100.0);
    let b = glam::Mat4::look_at_rh(glam::Vec3::new(1.0, 2.0, 3.0), glam::Vec3::ZERO, glam::Vec3::Y);
    let ab = Mat4Bits { entries: mat_to_bits(a) };
    let bb = Mat4Bits { entries: mat_to_bits(b) };
    assert_eq!(mat4_mul(&ab, &bb).entries, mat_to_bits(a * b));
}

#[test]
fn view_projection_matches_glam_composition() {
    let camera = CameraComponent {
        look_at: vec3_bits(0.0, 0.0, 0.0),
        up_orientation: vec3_bits(0.0, 1.0, 0.0),
        aspect_ratio: (800.0f32 / 600.0f32).to_bits(),
        field_of_view: 45.0f32.to_bits(),
        z_near_field: 0.1f32.to_bits(),
        z_far_field: 100.0f32.to_bits(),
    };
    let transform = TransformComponent {
        position: vec3_bits(0.0, 0.0, 2.0),
        scale: vec3_bits(1.0, 1.0, 1.0),
        rotation: vec3_bits(0.0, 0.0, 0.0),
        translation: vec3_bits(0.0, 0.0, 0.0),
    };
    let got = camera.calculate_view_projection_matrix(&transform);
    let view = glam::Mat4::look_at_rh(glam::Vec3::new(0.0, 0.0, 2.0), glam::Vec3::ZERO, glam::Vec3::Y);
    let projection = glam::Mat4::perspective_rh(45.0f32.to_radians(), 800.0 / 600.0, 0.1, 100.0);
    let expected = depth_remap_glam() * projection * view;
    assert_eq!(got.entries, mat_to_bits(expected));
}

#[test]
fn look_at_point_lands_within_depth_range() {
    // The point the camera looks at sits inside the frustum; after the
    // view-projection it must land at a depth within the remapped
    // near/far range, which is [0, 1] after the depth remap.
    let camera = CameraComponent {
        look_at: vec3_bits(0.0, 0.0, 0.0),
        up_orientation: vec3_bits(0.0, 1.0, 0.0),
        aspect_ratio: (800.0f32 / 600.0f32).to_bits(),
        field_of_view: 45.0f32.to_bits(),
        z_near_field: 0.1f32.to_bits(),
        z_far_field: 100.0f32.to_bits(),
    };
    let transform = TransformComponent {
        position: vec3_bits(0.0, 0.0, 2.0),
        scale: vec3_bits(1.0, 1.0, 1.0),
        rotation: vec3_bits(0.0, 0.0, 0.0),
        translation: vec3_bits(0.0, 0.0, 0.0),
    };
    let got = camera.calculate_view_projection_matrix(&transform);
    let mut cols = [0.0f32; 16];
    for (i, w) in got.entries.iter().enumerate() {
        cols[i] = f32::from_bits(*w);
    }
    let m = glam::Mat4::from_cols_array(&cols);
    let clip = m * glam::Vec4::new(0.0, 0.0, 0.0, 1.0);
    let depth = clip.z / clip.w;
    assert!(depth >= 0.0 && depth <= 1.0);
}

#[test]
fn matrix_bytes_are_little_endian_column_major() {
    let m = identity_matrix();
    let bytes = matrix_bytes(&m);
    assert_eq!(bytes.len(), 64);
    let mut expected: Vec<u8> = Vec::new();
    for w in m.entries.iter() {
        expected.extend_from_slice(&w.to_le_bytes());
    }
    assert_eq!(bytes, expected);
}
