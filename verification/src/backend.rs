//! Declarations of the wgpu handle types the library carries, and trusted
//! wrappers around the wgpu calls it makes.
//!
//! Every function here is `external_body`: its body is a single wgpu call
//! plus argument conversion, and its contract states only what wgpu's
//! documentation promises. The handles themselves are opaque to the proofs;
//! the library tracks what they were built from in its own fields.

use vstd::prelude::*;
use wgpu::util::DeviceExt;

verus! {

#[verifier::external_type_specification]
#[verifier::external_body]
pub struct ExDevice(wgpu::Device);

#[verifier::external_type_specification]
#[verifier::external_body]
pub struct ExQueue(wgpu::Queue);

#[verifier::external_type_specification]
#[verifier::external_body]
pub struct ExTexture(wgpu::Texture);

#[verifier::external_type_specification]
#[verifier::external_body]
pub struct ExTextureView(wgpu::TextureView);

#[verifier::external_type_specification]
#[verifier::external_body]
pub struct ExSampler(wgpu::Sampler);

#[verifier::external_type_specification]
#[verifier::external_body]
pub struct ExBuffer(wgpu::Buffer);

#[verifier::external_type_specification]
#[verifier::external_body]
pub struct ExBindGroupLayout(wgpu::BindGroupLayout);

#[verifier::external_type_specification]
#[verifier::external_body]
pub struct ExBindGroup(wgpu::BindGroup);

#[verifier::external_type_specification]
#[verifier::external_body]
pub struct ExPipelineLayout(wgpu::PipelineLayout);

#[verifier::external_type_specification]
#[verifier::external_body]
pub struct ExRenderPipeline(wgpu::RenderPipeline);

#[verifier::external_type_specification]
#[verifier::external_body]
pub struct ExShaderModule(wgpu::ShaderModule);

#[verifier::external_type_specification]
#[verifier::external_body]
pub struct ExCommandEncoder(wgpu::CommandEncoder);

#[verifier::external_type_specification]
#[verifier::external_body]
pub struct ExCommandBuffer(wgpu::CommandBuffer);

#[verifier::external_type_specification]
#[verifier::external_body]
pub struct ExTextureFormat(wgpu::TextureFormat);

#[verifier::external_type_specification]
#[verifier::external_body]
pub struct ExBindGroupLayoutEntry(wgpu::BindGroupLayoutEntry);

/// Relies on the `wgpu::BindGroupLayoutEntry` constructor: a layout slot for
/// a filtering sampler, visible to the fragment stage.
#[verifier::external_body]
pub fn sampler_layout_entry(binding: u32) -> wgpu::BindGroupLayoutEntry {
    wgpu::BindGroupLayoutEntry {
        binding,
        visibility: wgpu::ShaderStages::FRAGMENT,
        ty: wgpu::BindingType::Sampler(wgpu::SamplerBindingType::Filtering),
        count: None,
    }
}

/// Relies on the `wgpu::BindGroupLayoutEntry` constructor: a layout slot for
/// a uniform buffer, visible to the vertex and fragment stages.
#[verifier::external_body]
pub fn uniform_layout_entry(binding: u32) -> wgpu::BindGroupLayoutEntry {
    wgpu::BindGroupLayoutEntry {
        binding,
        visibility: wgpu::ShaderStages::VERTEX | wgpu::ShaderStages::FRAGMENT,
        ty: wgpu::BindingType::Buffer {
            ty: wgpu::BufferBindingType::Uniform,
            has_dynamic_offset: false,
            min_binding_size: None,
        },
        count: None,
    }
}

/// Relies on the `wgpu::BindGroupLayoutEntry` constructor: a layout slot for
/// a filterable, non-multisampled 2D texture, visible to the fragment stage.
#[verifier::external_body]
pub fn texture_layout_entry(binding: u32) -> wgpu::BindGroupLayoutEntry {
    wgpu::BindGroupLayoutEntry {
        binding,
        visibility: wgpu::ShaderStages::FRAGMENT,
        ty: wgpu::BindingType::Texture {
            sample_type: wgpu::TextureSampleType::Float { filterable: true },
            view_dimension: wgpu::TextureViewDimension::D2,
            multisampled: false,
        },
        count: None,
    }
}

/// Relies on `wgpu::Device::create_bind_group_layout`: builds the layout
/// declaring exactly the given entries, in order.
#[verifier::external_body]
pub fn create_bind_group_layout(
    device: &wgpu::Device,
    label: &str,
    entries: &Vec<wgpu::BindGroupLayoutEntry>,
) -> wgpu::BindGroupLayout {
    device.create_bind_group_layout(
        &wgpu::BindGroupLayoutDescriptor { label: Some(label), entries: entries.as_slice() },
    )
}

#[verifier::external_type_specification]
#[verifier::external_body]
pub struct ExColorTargetState(wgpu::ColorTargetState);

/// Relies on `wgpu::Device::create_shader_module`: wraps already-lowered
/// SPIR-V words as a shader module of the device.
#[verifier::external_body]
pub fn create_shader_module(device: &wgpu::Device, label: &str, words: Vec<u32>) -> wgpu::ShaderModule {
    device.create_shader_module(wgpu::ShaderModuleDescriptor {
        label: Some(label),
        source: wgpu::ShaderSource::SpirV(std::borrow::Cow::Owned(words)),
    })
}

/// Relies on `wgpu::Device::create_pipeline_layout`: a pipeline layout over
/// exactly one bind-group layout and no push constants.
#[verifier::external_body]
pub fn create_pipeline_layout(
    device: &wgpu::Device,
    label: &str,
    layout: &wgpu::BindGroupLayout,
) -> wgpu::PipelineLayout {
    device.create_pipeline_layout(&wgpu::PipelineLayoutDescriptor {
        label: Some(label),
        bind_group_layouts: &[Some(layout)],
        immediate_size: 0,
    })
}

/// Relies on the `wgpu::ColorTargetState` constructor: a color target of
/// the given format whose color and alpha are replaced, all channels
/// written.
#[verifier::external_body]
pub fn replace_color_target(format: &wgpu::TextureFormat) -> wgpu::ColorTargetState {
    wgpu::ColorTargetState {
        format: *format,
        blend: Some(wgpu::BlendState {
            color: wgpu::BlendComponent::REPLACE,
            alpha: wgpu::BlendComponent::REPLACE,
        }),
        write_mask: wgpu::ColorWrites::ALL,
    }
}

/// Relies on the `wgpu::TextureFormat` constant `Rg8Unorm`: the two-channel
/// unsigned-normalized format of the edge buffer.
#[verifier::external_body]
pub fn edge_target_format() -> wgpu::TextureFormat {
    wgpu::TextureFormat::Rg8Unorm
}

/// Relies on the `wgpu::TextureFormat` constant `Rgba8Unorm`: the
/// four-channel unsigned-normalized format of the blending-weight buffer.
#[verifier::external_body]
pub fn blend_target_format() -> wgpu::TextureFormat {
    wgpu::TextureFormat::Rgba8Unorm
}

/// Relies on `wgpu::Device::create_render_pipeline`: a pipeline pairing the
/// two modules' `main` entry points over the given layout, drawing default
/// triangle-list primitives without vertex buffers, depth, stencil or
/// multisampling, into the single given color target.
#[verifier::external_body]
pub fn create_render_pipeline(
    device: &wgpu::Device,
    label: &str,
    layout: &wgpu::PipelineLayout,
    vertex_module: &wgpu::ShaderModule,
    fragment_module: &wgpu::ShaderModule,
    target: &wgpu::ColorTargetState,
) -> wgpu::RenderPipeline {
    device.create_render_pipeline(&wgpu::RenderPipelineDescriptor {
        label: Some(label),
        layout: Some(layout),
        vertex: wgpu::VertexState { module: vertex_module, entry_point: Some("main"), compilation_options: Default::default(), buffers: &[] },
        fragment: Some(wgpu::FragmentState { module: fragment_module, entry_point: Some("main"), compilation_options: Default::default(), targets: &[Some(target.clone())] }),
        primitive: Default::default(),
        depth_stencil: None,
        multisample: Default::default(),
        multiview_mask: None,
        cache: None,
    })
}

#[verifier::external_type_specification]
#[verifier::external_body]
pub struct ExBindGroupEntry<'a>(wgpu::BindGroupEntry<'a>);

/// Relies on `wgpu::Device::create_texture`: a 2D texture of exactly
/// `width` by `height` texels in the given format, with one mip level and
/// one sample, usable as a render attachment and for sampling.
#[verifier::external_body]
pub fn create_render_target(
    device: &wgpu::Device,
    width: u32,
    height: u32,
    format: &wgpu::TextureFormat,
    label: &str,
) -> wgpu::Texture
    requires
        width >= 1,
        height >= 1,
{
    device.create_texture(&wgpu::TextureDescriptor {
        label: Some(label),
        size: wgpu::Extent3d { width, height, depth_or_array_layers: 1 },
        mip_level_count: 1,
        sample_count: 1,
        dimension: wgpu::TextureDimension::D2,
        format: *format,
        usage: wgpu::TextureUsages::RENDER_ATTACHMENT | wgpu::TextureUsages::TEXTURE_BINDING,
        view_formats: &[] })
}

/// Relies on `wgpu::Texture::create_view`: a view of the whole texture in
/// its own format.
#[verifier::external_body]
pub fn texture_view(texture: &wgpu::Texture, label: &str) -> wgpu::TextureView {
    texture.create_view(
        &wgpu::TextureViewDescriptor { label: Some(label), ..Default::default() },
    )
}

/// Relies on `wgpu::util::DeviceExt::create_buffer_init`: a uniform buffer
/// initialized with exactly the given bytes.
#[verifier::external_body]
pub fn create_uniform_buffer(device: &wgpu::Device, label: &str, contents: &Vec<u8>) -> wgpu::Buffer {
    device.create_buffer_init(
        &wgpu::util::BufferInitDescriptor {
            label: Some(label),
            usage: wgpu::BufferUsages::UNIFORM,
            contents: contents.as_slice(),
        },
    )
}

/// Relies on `wgpu::util::DeviceExt::create_texture_with_data`: a sampled
/// 2D texture of two bytes per texel (two unsigned-normalized channels),
/// uploaded row-major from exactly the given bytes.
#[verifier::external_body]
pub fn create_rg8_lookup_texture(
    device: &wgpu::Device,
    queue: &wgpu::Queue,
    width: u32,
    height: u32,
    data: &[u8],
    label: &str,
) -> wgpu::Texture
    requires
        width >= 1,
        height >= 1,
        data@.len() == 2 * (width as int) * (height as int),
{
    device.create_texture_with_data(
        queue,
        &wgpu::TextureDescriptor {
            label: Some(label),
            size: wgpu::Extent3d { width, height, depth_or_array_layers: 1 },
            mip_level_count: 1,
            sample_count: 1,
            dimension: wgpu::TextureDimension::D2,
            format: wgpu::TextureFormat::Rg8Unorm,
            usage: wgpu::TextureUsages::TEXTURE_BINDING | wgpu::TextureUsages::COPY_DST,
            view_formats: &[] },
        wgpu::util::TextureDataOrder::LayerMajor,
        data)
}

/// Relies on `wgpu::util::DeviceExt::create_texture_with_data`: a sampled
/// 2D texture of one byte per texel (one unsigned-normalized channel),
/// uploaded row-major from exactly the given bytes.
#[verifier::external_body]
pub fn create_r8_lookup_texture(
    device: &wgpu::Device,
    queue: &wgpu::Queue,
    width: u32,
    height: u32,
    data: &[u8],
    label: &str,
) -> wgpu::Texture
    requires
        width >= 1,
        height >= 1,
        data@.len() == (width as int) * (height as int),
{
    device.create_texture_with_data(
        queue,
        &wgpu::TextureDescriptor {
            label: Some(label),
            size: wgpu::Extent3d { width, height, depth_or_array_layers: 1 },
            mip_level_count: 1,
            sample_count: 1,
            dimension: wgpu::TextureDimension::D2,
            format: wgpu::TextureFormat::R8Unorm,
            usage: wgpu::TextureUsages::TEXTURE_BINDING | wgpu::TextureUsages::COPY_DST,
            view_formats: &[] },
        wgpu::util::TextureDataOrder::LayerMajor,
        data)
}

/// Relies on `wgpu::Device::create_sampler`: a bilinear (linear
/// magnification and minification, nearest between mips), clamp-to-edge
/// sampler.
#[verifier::external_body]
pub fn create_linear_sampler(device: &wgpu::Device, label: &str) -> wgpu::Sampler {
    device.create_sampler(&wgpu::SamplerDescriptor {
        label: Some(label),
        mag_filter: wgpu::FilterMode::Linear,
        min_filter: wgpu::FilterMode::Linear,
        mipmap_filter: wgpu::MipmapFilterMode::Nearest,
        address_mode_u: wgpu::AddressMode::ClampToEdge,
        address_mode_v: wgpu::AddressMode::ClampToEdge,
        ..Default::default()
    })
}

/// Relies on the `wgpu::BindGroupEntry` constructor: binds the sampler at
/// the given index.
#[verifier::external_body]
pub fn sampler_entry<'a>(binding: u32, sampler: &'a wgpu::Sampler) -> wgpu::BindGroupEntry<'a> {
    wgpu::BindGroupEntry { binding, resource: wgpu::BindingResource::Sampler(sampler) }
}

/// Relies on `wgpu::Buffer::as_entire_binding`: binds the whole buffer at
/// the given index.
#[verifier::external_body]
pub fn uniform_entry<'a>(binding: u32, buffer: &'a wgpu::Buffer) -> wgpu::BindGroupEntry<'a> {
    wgpu::BindGroupEntry { binding, resource: buffer.as_entire_binding() }
}

/// Relies on the `wgpu::BindGroupEntry` constructor: binds the texture
/// view at the given index.
#[verifier::external_body]
pub fn texture_view_entry<'a>(binding: u32, view: &'a wgpu::TextureView) -> wgpu::BindGroupEntry<
    'a,
> {
    wgpu::BindGroupEntry { binding, resource: wgpu::BindingResource::TextureView(view) }
}

/// Relies on `wgpu::Device::create_bind_group`: a bind group over the
/// given layout holding exactly the given entries, in order.
#[verifier::external_body]
pub fn create_bind_group(
    device: &wgpu::Device,
    label: &str,
    layout: &wgpu::BindGroupLayout,
    entries: &Vec<wgpu::BindGroupEntry<'_>>,
) -> wgpu::BindGroup {
    device.create_bind_group(
        &wgpu::BindGroupDescriptor { label: Some(label), layout, entries: entries.as_slice() },
    )
}

/// Relies on `wgpu::Device::create_command_encoder`.
#[verifier::external_body]
pub fn create_command_encoder(device: &wgpu::Device, label: &str) -> wgpu::CommandEncoder {
    device.create_command_encoder(&wgpu::CommandEncoderDescriptor { label: Some(label) })
}

/// Relies on `wgpu::CommandEncoder::begin_render_pass`,
/// `wgpu::RenderPass::set_pipeline`, `set_bind_group` and `draw`: records
/// one render pass onto the encoder. The pass clears its single color
/// attachment to opaque black, then draws `vertices` vertices and
/// `instances` instances with the pipeline and the bind group at index 0.
/// The recorder borrows the encoder and ends the pass when it drops, so
/// the four recording calls form one indivisible unit.
#[verifier::external_body]
pub fn encode_clear_pass(
    encoder: &mut wgpu::CommandEncoder,
    label: &str,
    view: &wgpu::TextureView,
    pipeline: &wgpu::RenderPipeline,
    bind_group: &wgpu::BindGroup,
    vertices: u32,
    instances: u32,
) {
    let mut rpass = encoder.begin_render_pass(&wgpu::RenderPassDescriptor {
        label: Some(label),
        color_attachments: &[Some(wgpu::RenderPassColorAttachment {
            view,
            depth_slice: None,
            resolve_target: None,
            ops: wgpu::Operations { load: wgpu::LoadOp::Clear(wgpu::Color::BLACK), store: wgpu::StoreOp::Store },
        })],
        ..Default::default()
    });
    rpass.set_pipeline(pipeline);
    rpass.set_bind_group(0, bind_group, &[]);
    rpass.draw(0..vertices, 0..instances);
}

/// Relies on `wgpu::CommandEncoder::finish`: closes the encoder into a
/// command buffer holding everything recorded on it, in order.
#[verifier::external_body]
pub fn finish_encoder(encoder: wgpu::CommandEncoder) -> wgpu::CommandBuffer {
    encoder.finish()
}

/// Relies on `wgpu::Queue::submit`: hands exactly this one command buffer
/// to the queue as a single atomic submission.
#[verifier::external_body]
pub fn submit_one(queue: &wgpu::Queue, buffer: wgpu::CommandBuffer) {
    let _ = queue.submit([buffer]);
}

} // verus!
