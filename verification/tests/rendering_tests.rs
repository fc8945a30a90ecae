use daedalus::components::camera::CameraComponent;
use daedalus::components::transform::TransformComponent;
use daedalus::math::Vec3Bits;
use daedalus::rendering::camera::CameraUniform;
use daedalus::rendering::service::select_surface_format_index;
use daedalus::rendering::surface::SurfaceState;
use daedalus::rendering::vertex::triangle_vertices;
use daedalus::rendering::vertex::vertex_bytes;

fn vec3_bits(x: f32, y: f32, z: f32) -> Vec3Bits {
    Vec3Bits { x: x.to_bits(), y: y.to_bits(), z: z.to_bits() }
}

fn sample_camera() -> CameraComponent {
    CameraComponent {
        look_at: vec3_bits(0.0, 0.0, 0.0),
        up_orientation: vec3_bits(0.0, 1.0, 0.0),
        aspect_ratio: (800.0f32 / 600.0f32).to_bits(),
        field_of_view: 45.0f32.to_bits(),
        z_near_field: 0.1f32.to_bits(),
        z_far_field: 100.0f32.to_bits(),
    }
}

fn sample_transform() -> TransformComponent {
    TransformComponent {
        position: vec3_bits(0.0, 0.0, 2.0),
        scale: vec3_bits(1.0, 1.0, 1.0),
        rotation: vec3_bits(0.0, 0.0, 0.0),
        translation: vec3_bits(0.0, 0.0, 0.0),
    }
}

#[test]
fn zero_sized_resize_is_ignored() {
    let mut s = SurfaceState::new();
    assert!(!s.apply_resize(0, 600));
    assert!(!s.apply_resize(800, 0));
    assert!(!s.apply_resize(0, 0));
    assert!(!s.configured);
    assert_eq!((s.width, s.height), (0, 0));
    assert_eq!(s.reconfigurations, 0);
}

#[test]
fn positive_resize_stores_exactly_the_given_extent() {
    let mut s = SurfaceState::new();
    assert!(s.apply_resize(800, 600));
    assert!(s.configured);
    assert_eq!((s.width, s.height), (800, 600));
    assert_eq!(s.reconfigurations, 1);
    assert!(s.apply_resize(1024, 768));
    assert_eq!((s.width, s.height), (1024, 768));
    assert_eq!(s.reconfigurations, 2);
}

#[test]
fn zero_resize_after_configuration_changes_nothing() {
    let mut s = SurfaceState::new();
    s.apply_resize(800, 600);
    let before = s;
    assert!(!s.apply_resize(0, 600));
    assert_eq!(s, before);
}

#[test]
fn no_draw_is_counted_before_the_first_resize() {
    // Before any successful resize the frame loop skips drawing, so the
    // draw counter of a fresh surface state stays at zero however often
    // the loop runs; drawing is recorded only once configured.
    let s = SurfaceState::new();
    assert!(!s.configured);
    assert_eq!(s.draw_submissions, 0);
}

#[test]
fn draws_are_counted_once_configured() {
    let mut s = SurfaceState::new();
    s.apply_resize(800, 600);
    s.record_draw();
    s.record_draw();
    assert_eq!(s.draw_submissions, 2);
}

#[test]
fn lost_surface_recovers_with_exactly_one_reconfiguration() {
    // The recovery that RenderingService::present performs for a lost or
    // outdated surface: the frame is dropped and the surface is resized
    // once at the window's current extent, after which drawing resumes.
    let mut s = SurfaceState::new();
    s.apply_resize(800, 600);
    s.record_draw();
    let reconfigurations_before = s.reconfigurations;
    let draws_before = s.draw_submissions;

    // One presentation attempt that fails with a lost surface.
    assert!(s.apply_resize(800, 600));
    assert_eq!(s.reconfigurations, reconfigurations_before + 1);
    assert_eq!(s.draw_submissions, draws_before);
    assert!(s.configured);

    // The next successful attempt draws again.
    s.record_draw();
    assert_eq!(s.draw_submissions, draws_before + 1);
}

#[test]
fn fresh_uniform_is_identity() {
    let u = CameraUniform::new();
    let mut expected = [0u32; 16];
    for (i, v) in glam::Mat4::IDENTITY.to_cols_array().iter().enumerate() {
        expected[i] = v.to_bits();
    }
    assert_eq!(u.view_projection_matrix.entries, expected);
}

#[test]
fn refreshed_uniform_bytes_equal_serialized_view_projection() {
    let camera = sample_camera();
    let transform = sample_transform();
    let mut u = CameraUniform::new();
    u.update_view_projection_matrix(&camera, &transform);
    let bytes = u.as_bytes();

    let expected_matrix = camera.calculate_view_projection_matrix(&transform);
    let mut expected: Vec<u8> = Vec::new();
    for w in expected_matrix.entries.iter() {
        expected.extend_from_slice(&w.to_le_bytes());
    }
    assert_eq!(bytes, expected);
    assert_eq!(bytes.len(), 64);
}

#[test]
fn triangle_has_red_top_green_bottom_left_blue_bottom_right() {
    let vs = triangle_vertices();
    assert_eq!(vs.len(), 3);
    let pos: Vec<(f32, f32, f32)> = vs
        .iter()
        .map(|v| (
            f32::from_bits(v.position.x),
            f32::from_bits(v.position.y),
            f32::from_bits(v.position.z),
        ))
        .collect();
    let col: Vec<(f32, f32, f32)> = vs
        .iter()
        .map(|v| (f32::from_bits(v.color.x), f32::from_bits(v.color.y), f32::from_bits(v.color.z)))
        .collect();

    // Red at the top.
    assert_eq!(col[0], (1.0, 0.0, 0.0));
    assert!(pos[0].1 > pos[1].1 && pos[0].1 > pos[2].1);
    // Green at the bottom left.
    assert_eq!(col[1], (0.0, 1.0, 0.0));
    assert!(pos[1].0 < pos[0].0 && pos[1].0 < pos[2].0 && pos[1].1 < pos[0].1);
    // Blue at the bottom right.
    assert_eq!(col[2], (0.0, 0.0, 1.0));
    assert!(pos[2].0 > pos[0].0 && pos[2].0 > pos[1].0 && pos[2].1 < pos[0].1);

    // Counter-clockwise winding: the signed area of the triangle as seen
    // by an identity view-projection is positive.
    let signed_area = (pos[1].0 - pos[0].0) * (pos[2].1 - pos[0].1)
        - (pos[2].0 - pos[0].0) * (pos[1].1 - pos[0].1);
    assert!(signed_area > 0.0);
}

#[test]
fn vertex_bytes_pack_position_then_color() {
    let vs = triangle_vertices();
    let bytes = vertex_bytes(&vs);
    assert_eq!(bytes.len(), 3 * 24);
    // Stride 24: the second vertex starts at byte 24.  Position sits at
    // offset 0 and color at offset 12 within each vertex.
    let v1_pos_x = f32::from_bits(u32::from_le_bytes([bytes[24], bytes[25], bytes[26], bytes[27]]));
    assert_eq!(v1_pos_x, -0.5);
    let v0_col_r = f32::from_bits(u32::from_le_bytes([bytes[12], bytes[13], bytes[14], bytes[15]]));
    assert_eq!(v0_col_r, 1.0);
    let v2_col_b = f32::from_bits(u32::from_le_bytes([
        bytes[2 * 24 + 20],
        bytes[2 * 24 + 21],
        bytes[2 * 24 + 22],
        bytes[2 * 24 + 23],
    ]));
    assert_eq!(v2_col_b, 1.0);
}

#[test]
fn surface_format_selection_prefers_first_srgb() {
    assert_eq!(select_surface_format_index(&vec![false, true, true]), 1);
    assert_eq!(select_surface_format_index(&vec![true, false]), 0);
    assert_eq!(select_surface_format_index(&vec![false, false]), 0);
    assert_eq!(select_surface_format_index(&vec![false]), 0);
}
