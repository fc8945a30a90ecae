//! The trusted boundary to the GPU library.
//!
//! Each item here either declares a `wgpu` type so that verified code can
//! hold values of it, or wraps exactly the `wgpu` call its doc comment
//! names.  The GPU's effects are not observable to the verifier, so these
//! wrappers promise nothing beyond what they convert; the library's own
//! state machine carries the observable truth about the surface.

use crate::rendering::surface::RenderError;
use vstd::prelude::*;
use wgpu::util::DeviceExt;
use wgpu::BindGroup;
use wgpu::BindGroupLayout;
use wgpu::Buffer;
use wgpu::CommandBuffer;
use wgpu::CommandEncoder;
use wgpu::Device;
use wgpu::PipelineLayout;
use wgpu::Queue;
use wgpu::RenderPass;
use wgpu::RenderPipeline;
use wgpu::ShaderModule;
use wgpu::Surface;
use wgpu::SurfaceConfiguration;
use wgpu::SurfaceTexture;
use wgpu::TextureFormat;
use wgpu::TextureView;
use wgpu::VertexBufferLayout;

verus! {

#[verifier::external_type_specification]
#[verifier::external_body]
pub struct ExDevice(Device);

#[verifier::external_type_specification]
#[verifier::external_body]
pub struct ExQueue(Queue);

#[verifier::external_type_specification]
#[verifier::external_body]
pub struct ExSurface<'window>(Surface<'window>);

#[verifier::external_type_specification]
#[verifier::external_body]
#[verifier::reject_recursive_types(V)]
pub struct ExSurfaceConfiguration<V>(wgpu::wgt::SurfaceConfiguration<V>);

#[verifier::external_type_specification]
#[verifier::external_body]
pub struct ExTextureFormat(TextureFormat);

#[verifier::external_type_specification]
#[verifier::external_body]
pub struct ExSurfaceTexture(SurfaceTexture);

#[verifier::external_type_specification]
#[verifier::external_body]
pub struct ExTextureView(TextureView);

#[verifier::external_type_specification]
#[verifier::external_body]
pub struct ExCommandEncoder(CommandEncoder);

#[verifier::external_type_specification]
#[verifier::external_body]
pub struct ExCommandBuffer(CommandBuffer);

#[verifier::external_type_specification]
#[verifier::external_body]
pub struct ExRenderPass<'encoder>(RenderPass<'encoder>);

#[verifier::external_type_specification]
#[verifier::external_body]
pub struct ExRenderPipeline(RenderPipeline);

#[verifier::external_type_specification]
#[verifier::external_body]
pub struct ExPipelineLayout(PipelineLayout);

#[verifier::external_type_specification]
#[verifier::external_body]
pub struct ExShaderModule(ShaderModule);

#[verifier::external_type_specification]
#[verifier::external_body]
pub struct ExBuffer(Buffer);

#[verifier::external_type_specification]
#[verifier::external_body]
pub struct ExBindGroup(BindGroup);

#[verifier::external_type_specification]
#[verifier::external_body]
pub struct ExBindGroupLayout(BindGroupLayout);

#[verifier::external_type_specification]
#[verifier::external_body]
pub struct ExVertexBufferLayout<'a>(VertexBufferLayout<'a>);

/// Relies on wgpu's `Surface::configure`: applies the given configuration
/// to the surface on the given device.
#[verifier::external_body]
pub fn configure_surface(surface: &Surface<'static>, device: &Device, config: &SurfaceConfiguration) {
    surface.configure(device, config);
}

/// Relies on the public `width` and `height` fields of wgpu's
/// `SurfaceConfiguration`: stores the new extent, touching nothing else.
#[verifier::external_body]
pub fn set_surface_extent(config: &mut SurfaceConfiguration, width: u32, height: u32) {
    config.width = width;
    config.height = height;
}

/// Relies on wgpu's `Surface::get_current_texture`: hands out the next
/// presentable texture, or the reason there is none; each error variant is
/// mapped one-to-one onto [`RenderError`].
#[verifier::external_body]
pub fn acquire_surface_texture(surface: &Surface<'static>) -> (r: Result<
    SurfaceTexture,
    RenderError,
>) {
    match surface.get_current_texture() {
        Ok(t) => Ok(t),
        Err(wgpu::SurfaceError::Timeout) => Err(RenderError::Timeout),
        Err(wgpu::SurfaceError::Outdated) => Err(RenderError::Outdated),
        Err(wgpu::SurfaceError::Lost) => Err(RenderError::Lost),
        Err(wgpu::SurfaceError::OutOfMemory) => Err(RenderError::OutOfMemory),
        Err(wgpu::SurfaceError::Other) => Err(RenderError::Other),
    }
}

/// Relies on wgpu's `Texture::create_view` with the default descriptor.
#[verifier::external_body]
pub fn create_surface_texture_view(texture: &SurfaceTexture) -> (r: TextureView) {
    texture.texture.create_view(&wgpu::TextureViewDescriptor::default())
}

/// Relies on wgpu's `Device::create_command_encoder`.
#[verifier::external_body]
pub fn create_render_command_encoder(device: &Device) -> (r: CommandEncoder) {
    device.create_command_encoder(&wgpu::CommandEncoderDescriptor {
        label: Some("Render Command Encoder"),
    })
}

/// Relies on wgpu's `CommandEncoder::begin_render_pass`: begins a pass
/// over the given view that clears it to the fixed background color.
#[verifier::external_body]
pub fn begin_clear_pass<'a>(encoder: &'a mut CommandEncoder, view: &TextureView) -> (r: RenderPass<
    'a,
>) {
    let color = wgpu::Color { r: bytemuck::cast(0x3FD0000000000000u64), g: bytemuck::cast(0x3FE0000000000000u64), b: bytemuck::cast(0x3FF0000000000000u64), a: bytemuck::cast(0x3FF0000000000000u64) };
    let ops = wgpu::Operations { load: wgpu::LoadOp::Clear(color), store: wgpu::StoreOp::Store };
    encoder.begin_render_pass(&wgpu::RenderPassDescriptor {
        label: Some("Clear Screen Render Pass"),
        color_attachments: &[Some(wgpu::RenderPassColorAttachment { view, resolve_target: None, ops })],
        depth_stencil_attachment: None,
        occlusion_query_set: None,
        timestamp_writes: None,
    })
}

/// Relies on wgpu's `RenderPass::set_pipeline`.
#[verifier::external_body]
pub fn set_render_pipeline<'a>(render_pass: &mut RenderPass<'a>, pipeline: &RenderPipeline) {
    render_pass.set_pipeline(pipeline);
}

/// Relies on wgpu's `RenderPass::set_bind_group`, with no dynamic offsets.
#[verifier::external_body]
pub fn set_bind_group<'a>(render_pass: &mut RenderPass<'a>, index: u32, bind_group: &BindGroup) {
    render_pass.set_bind_group(index, bind_group, &[]);
}

/// Relies on wgpu's `RenderPass::set_vertex_buffer`, binding the whole
/// buffer.
#[verifier::external_body]
pub fn set_vertex_buffer<'a>(render_pass: &mut RenderPass<'a>, slot: u32, buffer: &Buffer) {
    render_pass.set_vertex_buffer(slot, buffer.slice(..));
}

/// Relies on wgpu's `RenderPass::draw`: one instance of the given vertex
/// range, starting at vertex zero.
#[verifier::external_body]
pub fn draw_vertices<'a>(render_pass: &mut RenderPass<'a>, vertex_count: u32) {
    render_pass.draw(0..vertex_count, 0..1);
}

/// Relies on wgpu's `CommandEncoder::finish`.
#[verifier::external_body]
pub fn finish_encoder(encoder: CommandEncoder) -> (r: CommandBuffer) {
    encoder.finish()
}

/// Relies on wgpu's `Queue::submit`, submitting one command buffer.
#[verifier::external_body]
pub fn submit_command_buffer(queue: &Queue, command_buffer: CommandBuffer) {
    queue.submit(std::iter::once(command_buffer));
}

/// Relies on wgpu's `SurfaceTexture::present`.
#[verifier::external_body]
pub fn present_surface_texture(texture: SurfaceTexture) {
    texture.present();
}

/// Relies on wgpu's `Queue::write_buffer`: replaces the buffer contents
/// starting at the given offset with the given bytes.
#[verifier::external_body]
pub fn write_buffer(queue: &Queue, buffer: &Buffer, offset: u64, data: &Vec<u8>) {
    queue.write_buffer(buffer, offset, data.as_slice());
}

/// Relies on wgpu's `DeviceExt::create_buffer_init`: a uniform buffer,
/// writable from the queue, holding the given bytes.
#[verifier::external_body]
pub fn create_uniform_buffer(device: &Device, contents: &Vec<u8>) -> (r: Buffer) {
    device.create_buffer_init(&wgpu::util::BufferInitDescriptor {
        label: Some("Camera Uniform Buffer"),
        contents: contents.as_slice(),
        usage: wgpu::BufferUsages::UNIFORM | wgpu::BufferUsages::COPY_DST,
    })
}

/// Relies on wgpu's `DeviceExt::create_buffer_init`: a vertex buffer
/// holding the given bytes.
#[verifier::external_body]
pub fn create_vertex_buffer(device: &Device, contents: &Vec<u8>) -> (r: Buffer) {
    device.create_buffer_init(&wgpu::util::BufferInitDescriptor {
        label: Some("Hardcoded Triangle Vertex Buffer"),
        contents: contents.as_slice(),
        usage: wgpu::BufferUsages::VERTEX,
    })
}

/// Relies on wgpu's `Device::create_bind_group_layout`: one uniform-buffer
/// binding at slot zero, visible to the vertex stage only.
#[verifier::external_body]
pub fn create_camera_bind_group_layout(device: &Device) -> (r: BindGroupLayout) {
    let ty = wgpu::BindingType::Buffer { ty: wgpu::BufferBindingType::Uniform, has_dynamic_offset: false, min_binding_size: None };
    let entry = wgpu::BindGroupLayoutEntry { binding: 0, visibility: wgpu::ShaderStages::VERTEX, ty, count: None };
    device.create_bind_group_layout(&wgpu::BindGroupLayoutDescriptor { entries: &[entry], label: Some("Camera bind group layout") })
}

/// Relies on wgpu's `Device::create_bind_group`: binds the whole buffer at
/// slot zero of the given layout.
#[verifier::external_body]
pub fn create_camera_bind_group(device: &Device, layout: &BindGroupLayout, buffer: &Buffer) -> (r:
    BindGroup) {
    device.create_bind_group(&wgpu::BindGroupDescriptor {
        layout,
        entries: &[wgpu::BindGroupEntry { binding: 0, resource: buffer.as_entire_binding() }],
        label: Some("Camera bind group"),
    })
}

/// Relies on wgpu's `Device::create_shader_module`, compiling the given
/// WGSL source.
#[verifier::external_body]
pub fn create_shader_module(device: &Device, source: &str) -> (r: ShaderModule) {
    device.create_shader_module(wgpu::ShaderModuleDescriptor {
        label: Some("Primary Shader"),
        source: wgpu::ShaderSource::Wgsl(source.into()),
    })
}

/// Relies on wgpu's `Device::create_pipeline_layout`: one bind group
/// layout, no push constants.
#[verifier::external_body]
pub fn create_pipeline_layout(device: &Device, bind_group_layout: &BindGroupLayout) -> (r:
    PipelineLayout) {
    device.create_pipeline_layout(&wgpu::PipelineLayoutDescriptor {
        label: Some("Primary Render Pipeline Layout"),
        bind_group_layouts: &[bind_group_layout],
        push_constant_ranges: &[],
    })
}

/// Relies on wgpu's `Device::create_render_pipeline`: the fixed pipeline —
/// triangle-list topology, counter-clockwise front face, back-face
/// culling, no depth or stencil, a single sample, opaque replace blending,
/// one color target in the surface's format, entry points `vs_main` and
/// `fs_main` of the given shader.
#[verifier::external_body]
pub fn create_render_pipeline(
    device: &Device,
    layout: &PipelineLayout,
    shader: &ShaderModule,
    config: &SurfaceConfiguration,
    vertex_layout: VertexBufferLayout<'static>,
) -> (r: RenderPipeline) {
    let targets = [Some(wgpu::ColorTargetState { format: config.format, blend: Some(wgpu::BlendState::REPLACE), write_mask: wgpu::ColorWrites::ALL })];
    device.create_render_pipeline(&wgpu::RenderPipelineDescriptor {
        label: Some("Primary Render Pipeline"),
        layout: Some(layout),
        vertex: wgpu::VertexState { module: shader, entry_point: Some("vs_main"), compilation_options: Default::default(), buffers: &[vertex_layout] },
        fragment: Some(wgpu::FragmentState { module: shader, entry_point: Some("fs_main"), compilation_options: Default::default(), targets: &targets }),
        primitive: wgpu::PrimitiveState { topology: wgpu::PrimitiveTopology::TriangleList, front_face: wgpu::FrontFace::Ccw, cull_mode: Some(wgpu::Face::Back), ..Default::default() },
        depth_stencil: None,
        multisample: wgpu::MultisampleState::default(),
        multiview: None,
        cache: None,
    })
}

} // verus!
