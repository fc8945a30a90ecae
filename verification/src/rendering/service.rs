//! The rendering service: owns the GPU device, queue, surface, pipeline
//! and buffers, and drives them through initialization, resize and the
//! per-frame draw.
//!
//! The platform layer performs the one-time asynchronous GPU handshake
//! (instance, surface, adapter, device) and hands the results to
//! [`RenderingService::new`]; everything after that — the initial uniform,
//! the fixed pipeline and geometry, the resize policy, the frame loop and
//! its recovery from a lost surface — is decided here.

use crate::components::camera::spec_view_projection;
use crate::components::camera::CameraComponent;
use crate::components::transform::TransformComponent;
use crate::rendering::camera::CameraUniform;
use crate::rendering::gpu;
use crate::rendering::surface::spec_initial_state;
use crate::rendering::surface::spec_present;
use crate::rendering::surface::spec_record_draw;
use crate::rendering::surface::spec_resize;
use crate::rendering::surface::RenderError;
use crate::rendering::surface::SurfaceState;
use crate::rendering::vertex::triangle_vertices;
use crate::rendering::vertex::vertex_bytes;
use crate::rendering::vertex::Vertex;
use crate::rendering::vertex::TRIANGLE_VERTEX_COUNT;
use crate::scene::seq_contains_key;
use crate::scene::seq_get;
use crate::scene::Scene;
use vstd::prelude::*;
use wgpu::BindGroup;
use wgpu::Buffer;
use wgpu::Device;
use wgpu::Queue;
use wgpu::RenderPipeline;
use wgpu::Surface;
use wgpu::SurfaceConfiguration;

verus! {

/// The entity whose framing and transform drive the camera.  Fixed to the
/// first created entity for now; a configurable selector is an open
/// design question.
pub const MAIN_CAMERA_ENTITY: u32 = 1;

/// The fixed WGSL shader program: the vertex stage consumes one vertex
/// (position, color) and the camera uniform bound at group zero, binding
/// zero, and produces a clip-space position plus the interpolated color;
/// the fragment stage turns that color into the pixel color.
pub fn shader_source() -> (r: &'static str) {
    "struct CameraUniform {
    view_projection_matrix: mat4x4<f32>,
};

@group(0) @binding(0)
var<uniform> camera: CameraUniform;

struct VertexInput {
    @location(0) position: vec3<f32>,
    @location(1) color: vec3<f32>,
};

struct VertexOutput {
    @builtin(position) clip_position: vec4<f32>,
    @location(0) color: vec3<f32>,
};

@vertex
fn vs_main(model: VertexInput) -> VertexOutput {
    var out: VertexOutput;
    out.color = model.color;
    out.clip_position = camera.view_projection_matrix * vec4<f32>(model.position, 1.0);
    return out;
}

@fragment
fn fs_main(in: VertexOutput) -> @location(0) vec4<f32> {
    return vec4<f32>(in.color, 1.0);
}
"
}

/// The index of the surface format to use, given one sRGB flag per format
/// in capability order: the first sRGB-encoded format if there is one, the
/// first format otherwise.
pub fn select_surface_format_index(is_srgb: &Vec<bool>) -> (i: usize)
    requires
        is_srgb@.len() > 0,
    ensures
        i < is_srgb@.len(),
        (exists|j: int| 0 <= j < is_srgb@.len() && is_srgb@[j]) ==> is_srgb@[i as int] && (forall|
            j: int,
        | 0 <= j < i ==> !is_srgb@[j]),
        !(exists|j: int| 0 <= j < is_srgb@.len() && is_srgb@[j]) ==> i == 0,
{
    let n = is_srgb.len();
    let mut k: usize = 0;
    while k < n
        invariant
            n == is_srgb@.len(),
            k <= n,
            forall|j: int| 0 <= j < k ==> !is_srgb@[j],
        decreases n - k,
    {
        if is_srgb[k] {
            return k;
        }
        k = k + 1;
    }
    0
}

/// The view-projection matrix of the main camera's framing and transform,
/// as currently stored in the scene.  Meaningful only while the scene
/// holds both records for the main camera entity.
pub open spec fn spec_main_camera_matrix(scene: Scene) -> Seq<u32> {
    match (
        seq_get(scene.camera_components@, MAIN_CAMERA_ENTITY),
        seq_get(scene.transform_components@, MAIN_CAMERA_ENTITY),
    ) {
        (Some(camera), Some(transform)) => spec_view_projection(camera, transform),
        _ => Seq::<u32>::empty(),
    }
}

/// The rendering service.  It exclusively owns the GPU resources; the
/// surface lifecycle decisions live in the embedded [`SurfaceState`].
pub struct RenderingService {
    pub surface: Surface<'static>,
    pub surface_configuration: SurfaceConfiguration,
    pub device: Device,
    pub queue: Queue,
    pub render_pipeline: RenderPipeline,
    pub vertex_buffer: Buffer,
    pub state: SurfaceState,
    pub camera_uniform: CameraUniform,
    pub camera_buffer: Buffer,
    pub camera_bind_group: BindGroup,
}

impl RenderingService {
    /// Builds the service from an already-acquired surface, device and
    /// queue: compiles the fixed shader, computes and uploads the initial
    /// camera uniform, builds the single bind group, the fixed pipeline
    /// and the triangle vertex buffer.  The surface is left unconfigured
    /// until the first resize.
    pub fn new(
        surface: Surface<'static>,
        device: Device,
        queue: Queue,
        surface_configuration: SurfaceConfiguration,
        main_camera_component: &CameraComponent,
        main_transform_component: &TransformComponent,
    ) -> (r: RenderingService)
        ensures
            r.state == spec_initial_state(),
            r.state.wf(),
            r.camera_uniform.view_projection_matrix@ == spec_view_projection(
                *main_camera_component,
                *main_transform_component,
            ),
    {
        let shader = gpu::create_shader_module(&device, shader_source());
        let mut camera_uniform = CameraUniform::new();
        camera_uniform.update_view_projection_matrix(
            main_camera_component,
            main_transform_component,
        );
        let uniform_data = camera_uniform.as_bytes();
        let camera_buffer = gpu::create_uniform_buffer(&device, &uniform_data);
        let camera_bind_group_layout = gpu::create_camera_bind_group_layout(&device);
        let camera_bind_group = gpu::create_camera_bind_group(
            &device,
            &camera_bind_group_layout,
            &camera_buffer,
        );
        let render_pipeline_layout = gpu::create_pipeline_layout(&device, &camera_bind_group_layout);
        let render_pipeline = gpu::create_render_pipeline(
            &device,
            &render_pipeline_layout,
            &shader,
            &surface_configuration,
            Vertex::describe_vertex_buffer_layout(),
        );
        let vertices = triangle_vertices();
        let vertex_data = vertex_bytes(&vertices);
        let vertex_buffer = gpu::create_vertex_buffer(&device, &vertex_data);
        RenderingService {
            surface,
            surface_configuration,
            device,
            queue,
            render_pipeline,
            vertex_buffer,
            state: SurfaceState::new(),
            camera_uniform,
            camera_buffer,
            camera_bind_group,
        }
    }

    /// Re-derives the camera uniform from the main camera's current
    /// framing and transform and writes the new bytes over the whole GPU
    /// buffer.
    pub fn update_camera_uniform(&mut self, scene: &Scene)
        requires
            scene.wf(),
            seq_contains_key(scene.camera_components@, MAIN_CAMERA_ENTITY),
            seq_contains_key(scene.transform_components@, MAIN_CAMERA_ENTITY),
        ensures
            final(self).camera_uniform.view_projection_matrix@ == spec_main_camera_matrix(*scene),
            final(self).state == old(self).state,
    {
        let camera_opt = scene.camera_components.get(MAIN_CAMERA_ENTITY);
        let transform_opt = scene.transform_components.get(MAIN_CAMERA_ENTITY);
        if let (Some(main_camera_component), Some(main_transform_component)) = (
            camera_opt,
            transform_opt,
        ) {
            self.camera_uniform.update_view_projection_matrix(
                &main_camera_component,
                &main_transform_component,
            );
            let data = self.camera_uniform.as_bytes();
            gpu::write_buffer(&self.queue, &self.camera_buffer, 0, &data);
        }
    }

    /// Applies a resize: with both dimensions positive the surface is
    /// reconfigured for the new extent and marked configured; a zero
    /// dimension makes the call a silent no-op.
    pub fn resize_surface(&mut self, width: u32, height: u32)
        ensures
            final(self).state == spec_resize(old(self).state, width, height),
            old(self).state.wf() ==> final(self).state.wf(),
            final(self).camera_uniform == old(self).camera_uniform,
    {
        if width > 0 && height > 0 {
            gpu::set_surface_extent(&mut self.surface_configuration, width, height);
            gpu::configure_surface(&self.surface, &self.device, &self.surface_configuration);
            self.state.apply_resize(width, height);
        }
    }

    /// Draws one frame: before the first successful resize this returns
    /// success without drawing; afterwards it acquires the next surface
    /// texture, records one pass that clears the target and draws the
    /// fixed triangle with the camera uniform bound, submits it and
    /// presents.  A failed acquisition drops the frame and reports why;
    /// recovery is the caller's decision.
    pub fn render(&mut self) -> (r: Result<(), RenderError>)
        ensures
            final(self).camera_uniform == old(self).camera_uniform,
            !old(self).state.configured ==> r is Ok && final(self).state == old(self).state,
            old(self).state.configured ==> match r {
                Ok(_) => final(self).state == spec_record_draw(old(self).state),
                Err(_) => final(self).state == old(self).state,
            },
            old(self).state.wf() ==> final(self).state.wf(),
    {
        if !self.state.configured {
            return Ok(());
        }
        let surface_texture = match gpu::acquire_surface_texture(&self.surface) {
            Ok(t) => t,
            Err(e) => {
                return Err(e);
            },
        };
        let texture_view = gpu::create_surface_texture_view(&surface_texture);
        let mut command_encoder = gpu::create_render_command_encoder(&self.device);
        {
            let mut render_pass = gpu::begin_clear_pass(&mut command_encoder, &texture_view);
            gpu::set_render_pipeline(&mut render_pass, &self.render_pipeline);
            gpu::set_bind_group(&mut render_pass, 0, &self.camera_bind_group);
            gpu::set_vertex_buffer(&mut render_pass, 0, &self.vertex_buffer);
            gpu::draw_vertices(&mut render_pass, TRIANGLE_VERTEX_COUNT);
        }
        let command_buffer = gpu::finish_encoder(command_encoder);
        gpu::submit_command_buffer(&self.queue, command_buffer);
        gpu::present_surface_texture(surface_texture);
        self.state.record_draw();
        Ok(())
    }

    /// One whole presentation: refreshes the camera uniform from the
    /// scene, draws, and on a lost or outdated surface reconfigures once
    /// at the window's current extent; any other failure only drops the
    /// frame.  Returns the draw outcome.
    pub fn present(&mut self, scene: &Scene, window_width: u32, window_height: u32) -> (r: Result<
        (),
        RenderError,
    >)
        requires
            scene.wf(),
            seq_contains_key(scene.camera_components@, MAIN_CAMERA_ENTITY),
            seq_contains_key(scene.transform_components@, MAIN_CAMERA_ENTITY),
        ensures
            final(self).camera_uniform.view_projection_matrix@ == spec_main_camera_matrix(*scene),
            final(self).state == spec_present(
                old(self).state,
                r,
                window_width,
                window_height,
            ),
            old(self).state.wf() ==> final(self).state.wf(),
    {
        self.update_camera_uniform(scene);
        let result = self.render();
        match result {
            Ok(_) => {
            },
            Err(RenderError::Lost) | Err(RenderError::Outdated) => {
                self.resize_surface(window_width, window_height);
            },
            Err(_) => {
            },
        }
        result
    }
}

} // verus!
