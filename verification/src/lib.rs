//! Post-process antialiasing for wgpu, using the three-pass SMAA resolve
//! (edge detection, blending-weight estimation, neighborhood blending).
//!
//! A [`SmaaTarget`] owns the GPU resources of the stage; a frame is rendered
//! into the view exposed by [`SmaaFrame`], and ending the frame runs the
//! three fixed passes into the caller's output view.

pub mod backend;
pub mod shader;
pub mod uniforms;

pub use shader::CompileError;
pub use shader::ShaderQuality;
pub use shader::ShaderSource;
pub use shader::ShaderStage;

use vstd::prelude::*;

verus! {

/// Anti-aliasing mode. Higher values produce nicer results but run slower.
#[non_exhaustive]
#[derive(Copy, Clone, Debug, PartialEq, Eq, Hash, Structural)]
pub enum SmaaMode {
    /// Do not perform antialiasing.
    Disabled,
    /// Use SMAA 1x.
    Smaa1X,
}

/// What one slot of a bind-group layout binds.
#[derive(Copy, Clone, Debug, PartialEq, Eq, Structural)]
pub enum BindingKind {
    /// A filtering sampler.
    FilteringSampler,
    /// A uniform buffer.
    UniformBuffer,
    /// A filterable 2D texture.
    SampledTexture,
}

/// One slot of a bind-group layout: a binding index and what it binds.
#[derive(Copy, Clone, Debug, PartialEq, Eq, Structural)]
pub struct LayoutSlot {
    /// Binding index as seen by the shader.
    pub binding: u32,
    /// What the slot binds.
    pub kind: BindingKind,
}

/// Layout of the edge-detection pass: sampler, resolution uniforms, and the
/// color capture texture.
pub open spec fn edge_detect_layout() -> Seq<LayoutSlot> {
    seq![
        LayoutSlot { binding: 0, kind: BindingKind::FilteringSampler },
        LayoutSlot { binding: 1, kind: BindingKind::UniformBuffer },
        LayoutSlot { binding: 2, kind: BindingKind::SampledTexture },
    ]
}

/// Layout of the blending-weight pass: sampler, resolution uniforms, the
/// edge texture, and the two lookup textures.
pub open spec fn blend_weight_layout() -> Seq<LayoutSlot> {
    seq![
        LayoutSlot { binding: 0, kind: BindingKind::FilteringSampler },
        LayoutSlot { binding: 1, kind: BindingKind::UniformBuffer },
        LayoutSlot { binding: 2, kind: BindingKind::SampledTexture },
        LayoutSlot { binding: 3, kind: BindingKind::SampledTexture },
        LayoutSlot { binding: 4, kind: BindingKind::SampledTexture },
    ]
}

/// Layout of the neighborhood-blending pass: sampler, resolution uniforms,
/// the color capture texture, and the blending-weight texture.
pub open spec fn neighborhood_blending_layout() -> Seq<LayoutSlot> {
    seq![
        LayoutSlot { binding: 0, kind: BindingKind::FilteringSampler },
        LayoutSlot { binding: 1, kind: BindingKind::UniformBuffer },
        LayoutSlot { binding: 2, kind: BindingKind::SampledTexture },
        LayoutSlot { binding: 3, kind: BindingKind::SampledTexture },
    ]
}

/// The edge-detection layout as a value.
pub fn edge_detect_layout_slots() -> (r: Vec<LayoutSlot>)
    ensures
        r@ == edge_detect_layout(),
{
    let mut v: Vec<LayoutSlot> = Vec::new();
    v.push(LayoutSlot { binding: 0, kind: BindingKind::FilteringSampler });
    v.push(LayoutSlot { binding: 1, kind: BindingKind::UniformBuffer });
    v.push(LayoutSlot { binding: 2, kind: BindingKind::SampledTexture });
    proof {
        assert(v@ =~= edge_detect_layout());
    }
    v
}

/// The blending-weight layout as a value.
pub fn blend_weight_layout_slots() -> (r: Vec<LayoutSlot>)
    ensures
        r@ == blend_weight_layout(),
{
    let mut v: Vec<LayoutSlot> = Vec::new();
    v.push(LayoutSlot { binding: 0, kind: BindingKind::FilteringSampler });
    v.push(LayoutSlot { binding: 1, kind: BindingKind::UniformBuffer });
    v.push(LayoutSlot { binding: 2, kind: BindingKind::SampledTexture });
    v.push(LayoutSlot { binding: 3, kind: BindingKind::SampledTexture });
    v.push(LayoutSlot { binding: 4, kind: BindingKind::SampledTexture });
    proof {
        assert(v@ =~= blend_weight_layout());
    }
    v
}

/// The neighborhood-blending layout as a value.
pub fn neighborhood_blending_layout_slots() -> (r: Vec<LayoutSlot>)
    ensures
        r@ == neighborhood_blending_layout(),
{
    let mut v: Vec<LayoutSlot> = Vec::new();
    v.push(LayoutSlot { binding: 0, kind: BindingKind::FilteringSampler });
    v.push(LayoutSlot { binding: 1, kind: BindingKind::UniformBuffer });
    v.push(LayoutSlot { binding: 2, kind: BindingKind::SampledTexture });
    v.push(LayoutSlot { binding: 3, kind: BindingKind::SampledTexture });
    proof {
        assert(v@ =~= neighborhood_blending_layout());
    }
    v
}

/// Translates layout slots, in order, into wgpu layout entries.
fn lower_layout_slots(slots: &Vec<LayoutSlot>) -> (r: Vec<wgpu::BindGroupLayoutEntry>)
    ensures
        r@.len() == slots@.len(),
{
    let mut entries: Vec<wgpu::BindGroupLayoutEntry> = Vec::new();
    let mut i: usize = 0;
    while i < slots.len()
        invariant
            i <= slots@.len(),
            entries@.len() == i,
        decreases slots@.len() - i,
    {
        let slot = slots[i];
        let entry = match slot.kind {
            BindingKind::FilteringSampler => backend::sampler_layout_entry(slot.binding),
            BindingKind::UniformBuffer => backend::uniform_layout_entry(slot.binding),
            BindingKind::SampledTexture => backend::texture_layout_entry(slot.binding),
        };
        entries.push(entry);
        i = i + 1;
    }
    entries
}

/// The bind-group layouts of the three passes, built once per device.
pub struct BindGroupLayouts {
    /// Layout declaring [`edge_detect_layout`].
    edge_detect_bind_group_layout: wgpu::BindGroupLayout,
    /// Layout declaring [`blend_weight_layout`].
    blend_weight_bind_group_layout: wgpu::BindGroupLayout,
    /// Layout declaring [`neighborhood_blending_layout`].
    neighborhood_blending_bind_group_layout: wgpu::BindGroupLayout,
    /// The slot lists the three layouts were lowered from, in pass order.
    slot_models: Ghost<(Seq<LayoutSlot>, Seq<LayoutSlot>, Seq<LayoutSlot>)>,
}

impl BindGroupLayouts {
    /// The slot lists the three layouts were lowered from, in pass order:
    /// edge detection, blending weight, neighborhood blending.
    pub closed spec fn spec_slot_models(&self) -> (
        Seq<LayoutSlot>,
        Seq<LayoutSlot>,
        Seq<LayoutSlot>,
    ) {
        self.slot_models@
    }

    /// Builds the three per-pass bind-group layouts, each lowered slot by
    /// slot from its stated slot list.
    pub fn new(device: &wgpu::Device) -> (r: Self)
        ensures
            r.spec_slot_models() == (
                edge_detect_layout(),
                blend_weight_layout(),
                neighborhood_blending_layout(),
            ),
    {
        let edge_slots = edge_detect_layout_slots();
        let blend_slots = blend_weight_layout_slots();
        let neighborhood_slots = neighborhood_blending_layout_slots();
        let edge_entries = lower_layout_slots(&edge_slots);
        let blend_entries = lower_layout_slots(&blend_slots);
        let neighborhood_entries = lower_layout_slots(&neighborhood_slots);
        BindGroupLayouts {
            slot_models: Ghost((edge_slots@, blend_slots@, neighborhood_slots@)),
            edge_detect_bind_group_layout: backend::create_bind_group_layout(
                device,
                "smaa.bind_group_layout.edge_detect",
                &edge_entries,
            ),
            blend_weight_bind_group_layout: backend::create_bind_group_layout(
                device,
                "smaa.bind_group_layout.blend_weight",
                &blend_entries,
            ),
            neighborhood_blending_bind_group_layout: backend::create_bind_group_layout(
                device,
                "smaa.bind_group_layout.neighborhood_blending",
                &neighborhood_entries,
            ),
        }
    }
}

/// One of the three fixed passes of the resolve, in their running order.
#[derive(Copy, Clone, Debug, PartialEq, Eq, Structural)]
pub enum PassKind {
    /// First pass: edge detection over the captured color.
    EdgeDetect,
    /// Second pass: blending-weight estimation over the detected edges.
    BlendWeight,
    /// Third pass: neighborhood blending into the caller's output.
    NeighborhoodBlend,
}

/// Post-blend color curve of the final pass.
#[derive(Copy, Clone, Debug, PartialEq, Eq, Structural)]
pub enum ToneMapping {
    /// No curve: the blended color is written as computed.
    Disabled,
    /// Normalized ACES filmic curve applied after the blend.
    AcesNormalized,
}

/// The vertex-stage role of a pass.
pub open spec fn pass_vertex_stage(k: PassKind) -> shader::ShaderStage {
    match k {
        PassKind::EdgeDetect => shader::ShaderStage::EdgeDetectionVS,
        PassKind::BlendWeight => shader::ShaderStage::BlendingWeightVS,
        PassKind::NeighborhoodBlend => shader::ShaderStage::NeighborhoodBlendingVS,
    }
}

/// The fragment-stage role of a pass; only the final pass has a tone-mapped
/// variant.
pub open spec fn pass_fragment_stage(k: PassKind, tone: ToneMapping) -> shader::ShaderStage {
    match k {
        PassKind::EdgeDetect => shader::ShaderStage::LumaEdgeDetectionPS,
        PassKind::BlendWeight => shader::ShaderStage::BlendingWeightPS,
        PassKind::NeighborhoodBlend => match tone {
            ToneMapping::Disabled => shader::ShaderStage::NeighborhoodBlendingPS,
            ToneMapping::AcesNormalized => shader::ShaderStage::NeighborhoodBlendingAcesTonemapPS,
        },
    }
}

/// The two stage roles wired into the pipeline of a pass.
pub fn pass_stages(k: PassKind, tone: ToneMapping) -> (r: (
    shader::ShaderStage,
    shader::ShaderStage,
))
    ensures
        r.0 == pass_vertex_stage(k),
        r.1 == pass_fragment_stage(k, tone),
{
    match k {
        PassKind::EdgeDetect => (
            shader::ShaderStage::EdgeDetectionVS,
            shader::ShaderStage::LumaEdgeDetectionPS,
        ),
        PassKind::BlendWeight => (
            shader::ShaderStage::BlendingWeightVS,
            shader::ShaderStage::BlendingWeightPS,
        ),
        PassKind::NeighborhoodBlend => (
            shader::ShaderStage::NeighborhoodBlendingVS,
            match tone {
                ToneMapping::Disabled => shader::ShaderStage::NeighborhoodBlendingPS,
                ToneMapping::AcesNormalized => shader::ShaderStage::NeighborhoodBlendingAcesTonemapPS,
            },
        ),
    }
}

/// The color target a pass's pipeline renders to.
#[derive(Copy, Clone, Debug, PartialEq, Eq, Structural)]
pub enum TargetFormatModel {
    /// The algorithm's fixed two-channel unsigned-normalized format.
    TwoChannelUnorm,
    /// The algorithm's fixed four-channel unsigned-normalized format.
    FourChannelUnorm,
    /// The output pixel format chosen by the caller.
    OutputFormat,
}

/// Model of one pass's pipeline: which stage variants it was compiled
/// from, at which quality, and which color target it renders to.
#[derive(Copy, Clone, Debug, PartialEq, Eq, Structural)]
pub struct PipelineModel {
    /// The pass this pipeline runs.
    pub kind: PassKind,
    /// The vertex-stage variant it was compiled from.
    pub vertex_stage: shader::ShaderStage,
    /// The fragment-stage variant it was compiled from.
    pub fragment_stage: shader::ShaderStage,
    /// The quality preset baked into both variants.
    pub quality: shader::ShaderQuality,
    /// The color target it renders to.
    pub target: TargetFormatModel,
}

/// The three pipeline models, in pass order: each pass pairs its own
/// stage variants at the given quality; the edge pass renders to the
/// two-channel edge buffer, the blending-weight pass to the four-channel
/// blend buffer, and the final pass to the caller's output format.
pub open spec fn pipelines_model(quality: shader::ShaderQuality, tone: ToneMapping) -> Seq<
    PipelineModel,
> {
    seq![
        PipelineModel {
            kind: PassKind::EdgeDetect,
            vertex_stage: pass_vertex_stage(PassKind::EdgeDetect),
            fragment_stage: pass_fragment_stage(PassKind::EdgeDetect, tone),
            quality,
            target: TargetFormatModel::TwoChannelUnorm,
        },
        PipelineModel {
            kind: PassKind::BlendWeight,
            vertex_stage: pass_vertex_stage(PassKind::BlendWeight),
            fragment_stage: pass_fragment_stage(PassKind::BlendWeight, tone),
            quality,
            target: TargetFormatModel::FourChannelUnorm,
        },
        PipelineModel {
            kind: PassKind::NeighborhoodBlend,
            vertex_stage: pass_vertex_stage(PassKind::NeighborhoodBlend),
            fragment_stage: pass_fragment_stage(PassKind::NeighborhoodBlend, tone),
            quality,
            target: TargetFormatModel::OutputFormat,
        },
    ]
}

/// Whether the IR compiler accepts both assembled stage variants of one
/// pass.
pub open spec fn pass_compile_ok(
    quality: shader::ShaderQuality,
    tone: ToneMapping,
    kind: PassKind,
    algorithm: Seq<char>,
) -> bool {
    &&& shader::compile_ok(
        shader::assembled_source(quality, pass_vertex_stage(kind), algorithm),
        true,
    )
    &&& shader::compile_ok(
        shader::assembled_source(quality, pass_fragment_stage(kind, tone), algorithm),
        false,
    )
}

/// Whether the IR compiler accepts all six assembled stage variants of
/// the three passes: exactly when pipeline construction succeeds.
pub open spec fn pipelines_compile_ok(
    quality: shader::ShaderQuality,
    tone: ToneMapping,
    algorithm: Seq<char>,
) -> bool {
    &&& pass_compile_ok(quality, tone, PassKind::EdgeDetect, algorithm)
    &&& pass_compile_ok(quality, tone, PassKind::BlendWeight, algorithm)
    &&& pass_compile_ok(quality, tone, PassKind::NeighborhoodBlend, algorithm)
}

/// The three render pipelines, one per pass, built once per output format
/// and quality and never rebuilt afterwards.
pub struct Pipelines {
    /// Pipeline of the edge-detection pass; writes the edge buffer.
    edge_detect: wgpu::RenderPipeline,
    /// Pipeline of the blending-weight pass; writes the blend buffer.
    blend_weight: wgpu::RenderPipeline,
    /// Pipeline of the neighborhood-blending pass; writes the caller's
    /// output format.
    neighborhood_blending: wgpu::RenderPipeline,
    /// The models the three pipelines were built to, in pass order.
    model: Ghost<Seq<PipelineModel>>,
    /// The output format the final pass renders to.
    output_format: Ghost<wgpu::TextureFormat>,
}

impl Pipelines {
    /// The models the three pipelines were built to, in pass order.
    pub closed spec fn spec_model(&self) -> Seq<PipelineModel> {
        self.model@
    }

    /// The output format the final pass renders to.
    pub closed spec fn spec_output_format(&self) -> wgpu::TextureFormat {
        self.output_format@
    }

    /// Builds one pass's pipeline: compiles its two stage variants and
    /// wires them over the pass's bind-group layout into the given color
    /// target. Succeeds exactly when the compiler accepts both variants.
    fn build_pass_pipeline(
        device: &wgpu::Device,
        kind: PassKind,
        tone: ToneMapping,
        source: &shader::ShaderSource<'_>,
        layout: &wgpu::BindGroupLayout,
        target: &wgpu::ColorTargetState,
        layout_label: &str,
        pipeline_label: &str,
        vertex_label: &str,
        fragment_label: &str,
    ) -> (r: Result<wgpu::RenderPipeline, shader::CompileError>)
        ensures
            r is Ok <==> pass_compile_ok(source.quality, tone, kind, source.algorithm@),
    {
        proof {
            assert(shader::stage_is_vertex(pass_vertex_stage(kind)));
            assert(!shader::stage_is_vertex(pass_fragment_stage(kind, tone)));
        }
        let stages = pass_stages(kind, tone);
        let pipeline_layout = backend::create_pipeline_layout(device, layout_label, layout);
        let vertex_module = source.get_shader(device, stages.0, vertex_label)?;
        let fragment_module = source.get_shader(device, stages.1, fragment_label)?;
        Ok(
            backend::create_render_pipeline(
                device,
                pipeline_label,
                &pipeline_layout,
                &vertex_module,
                &fragment_module,
                target,
            ),
        )
    }

    /// Builds the three pipelines against their compiled shader variants.
    /// The intermediate passes render to the algorithm's fixed two- and
    /// four-channel buffers; the final pass renders to the caller's output
    /// format. Succeeds exactly when the compiler accepts all six
    /// assembled variants, and fails with the first it rejects.
    pub fn new(
        device: &wgpu::Device,
        format: &wgpu::TextureFormat,
        layouts: &BindGroupLayouts,
        algorithm: &str,
    ) -> (r: Result<Pipelines, shader::CompileError>)
        ensures
            r is Ok <==> pipelines_compile_ok(
                shader::ShaderQuality::High,
                ToneMapping::Disabled,
                algorithm@,
            ),
            r matches Ok(p) ==> p.spec_model() == pipelines_model(
                shader::ShaderQuality::High,
                ToneMapping::Disabled,
            ) && p.spec_output_format() == *format,
    {
        let source = shader::ShaderSource { quality: shader::ShaderQuality::High, algorithm };
        let tone = ToneMapping::Disabled;
        let edge_detect = Self::build_pass_pipeline(
            device,
            PassKind::EdgeDetect,
            tone,
            &source,
            &layouts.edge_detect_bind_group_layout,
            &backend::replace_color_target(&backend::edge_target_format()),
            "smaa.pipeline_layout.edge_detect",
            "smaa.pipeline.edge_detect",
            "smaa.shader.edge_detect.vert",
            "smaa.shader.edge_detect.frag",
        )?;
        let blend_weight = Self::build_pass_pipeline(
            device,
            PassKind::BlendWeight,
            tone,
            &source,
            &layouts.blend_weight_bind_group_layout,
            &backend::replace_color_target(&backend::blend_target_format()),
            "smaa.pipeline_layout.blend_weight",
            "smaa.pipeline.blend_weight",
            "smaa.shader.blending_weight.vert",
            "smaa.shader.blending_weight.frag",
        )?;
        let neighborhood_blending = Self::build_pass_pipeline(
            device,
            PassKind::NeighborhoodBlend,
            tone,
            &source,
            &layouts.neighborhood_blending_bind_group_layout,
            &backend::replace_color_target(format),
            "smaa.pipeline_layout.neighborhood_blending",
            "smaa.pipeline.neighborhood_blending",
            "smaa.shader.neighborhood_blending.vert",
            "smaa.shader.neighborhood_blending.frag",
        )?;
        Ok(
            Pipelines {
                edge_detect,
                blend_weight,
                neighborhood_blending,
                model: Ghost(pipelines_model(shader::ShaderQuality::High, ToneMapping::Disabled)),
                output_format: Ghost(*format),
            },
        )
    }
}

/// Width in texels of the area lookup table.
pub const AREATEX_WIDTH: u32 = 160;

/// Height in texels of the area lookup table.
pub const AREATEX_HEIGHT: u32 = 560;

/// Size in bytes of the area lookup table: two bytes per texel.
pub const AREATEX_SIZE: usize = 179200;

/// Width in texels of the search lookup table.
pub const SEARCHTEX_WIDTH: u32 = 64;

/// Height in texels of the search lookup table.
pub const SEARCHTEX_HEIGHT: u32 = 16;

/// Size in bytes of the search lookup table: one byte per texel.
pub const SEARCHTEX_SIZE: usize = 1024;

/// The algorithm's fixed assets, supplied by the caller: the shared shader
/// source and the two precomputed lookup tables (opaque binary data of
/// fixed dimensions, never computed here).
#[derive(Copy, Clone)]
pub struct SmaaAssets<'a> {
    /// The shared antialiasing algorithm source (GLSL).
    pub algorithm_source: &'a str,
    /// The area lookup table: [`AREATEX_WIDTH`] by [`AREATEX_HEIGHT`]
    /// texels, two bytes each.
    pub area_lookup: &'a [u8],
    /// The search lookup table: [`SEARCHTEX_WIDTH`] by
    /// [`SEARCHTEX_HEIGHT`] texels, one byte each.
    pub search_lookup: &'a [u8],
}

impl<'a> SmaaAssets<'a> {
    /// The lookup tables have exactly their fixed byte layout.
    pub open spec fn wf(&self) -> bool {
        self.area_lookup@.len() == AREATEX_SIZE && self.search_lookup@.len() == SEARCHTEX_SIZE
    }

    /// Checks the fixed byte layout of the lookup tables.
    pub fn check(&self) -> (r: bool)
        ensures
            r == self.wf(),
    {
        self.area_lookup.len() == AREATEX_SIZE && self.search_lookup.len() == SEARCHTEX_SIZE
    }
}

/// The static lookup textures and the shared sampler: built once per
/// device, immutable, referenced by all three bind groups.
pub struct Resources {
    /// The area lookup table, uploaded.
    area_texture: wgpu::Texture,
    /// The search lookup table, uploaded.
    search_texture: wgpu::Texture,
    /// Bilinear clamp-to-edge sampler shared by the three passes.
    linear_sampler: wgpu::Sampler,
    /// The bytes and size the area texture was uploaded from.
    area_model: Ghost<(Seq<u8>, u32, u32)>,
    /// The bytes and size the search texture was uploaded from.
    search_model: Ghost<(Seq<u8>, u32, u32)>,
}

impl Resources {
    /// The bytes and the (width, height) the area lookup texture was
    /// uploaded from.
    pub closed spec fn spec_area_model(&self) -> (Seq<u8>, u32, u32) {
        self.area_model@
    }

    /// The bytes and the (width, height) the search lookup texture was
    /// uploaded from.
    pub closed spec fn spec_search_model(&self) -> (Seq<u8>, u32, u32) {
        self.search_model@
    }

    /// Uploads the two lookup tables at their fixed dimensions, with
    /// exactly the asset bytes, and creates the shared sampler.
    fn new(device: &wgpu::Device, queue: &wgpu::Queue, assets: &SmaaAssets<'_>) -> (r: Resources)
        requires
            assets.wf(),
        ensures
            r.spec_area_model() == (assets.area_lookup@, AREATEX_WIDTH, AREATEX_HEIGHT),
            r.spec_search_model() == (assets.search_lookup@, SEARCHTEX_WIDTH, SEARCHTEX_HEIGHT),
    {
        Resources {
            area_texture: backend::create_rg8_lookup_texture(
                device,
                queue,
                AREATEX_WIDTH,
                AREATEX_HEIGHT,
                assets.area_lookup,
                "smaa.texture.area",
            ),
            search_texture: backend::create_r8_lookup_texture(
                device,
                queue,
                SEARCHTEX_WIDTH,
                SEARCHTEX_HEIGHT,
                assets.search_lookup,
                "smaa.texture.search",
            ),
            linear_sampler: backend::create_linear_sampler(device, "smaa.sampler"),
            area_model: Ghost((assets.area_lookup@, AREATEX_WIDTH, AREATEX_HEIGHT)),
            search_model: Ghost((assets.search_lookup@, SEARCHTEX_WIDTH, SEARCHTEX_HEIGHT)),
        }
    }
}

/// The per-resolution resources: the three intermediate render targets and
/// the resolution uniform buffer. Replaced whole on every resize, because
/// a texture cannot be resized in place.
pub struct Targets {
    /// Uniform buffer holding [`uniforms::rt_metrics`] of the size below.
    rt_uniforms: wgpu::Buffer,
    /// Capture buffer the scene is rendered into, in the output format.
    color_target: wgpu::TextureView,
    /// Edge buffer written by the first pass (two channels).
    edges_target: wgpu::TextureView,
    /// Blending-weight buffer written by the second pass (four channels).
    blend_target: wgpu::TextureView,
    /// Width in pixels of all three targets.
    width: u32,
    /// Height in pixels of all three targets.
    height: u32,
    /// The bytes the uniform buffer was created with.
    uniform_bytes: Ghost<Seq<u8>>,
    /// The format the capture buffer was created in.
    format: Ghost<wgpu::TextureFormat>,
}

impl Targets {
    /// Width in pixels of the three targets.
    pub closed spec fn spec_width(&self) -> u32 {
        self.width
    }

    /// Height in pixels of the three targets.
    pub closed spec fn spec_height(&self) -> u32 {
        self.height
    }

    /// The bytes uploaded to the resolution uniform buffer.
    pub closed spec fn spec_uniform_contents(&self) -> Seq<u8> {
        self.uniform_bytes@
    }

    /// The format the capture buffer was created in.
    pub closed spec fn spec_format(&self) -> wgpu::TextureFormat {
        self.format@
    }

    /// The uniform buffer always describes the current target size.
    pub open spec fn wf(&self) -> bool {
        &&& self.spec_width() >= 1
        &&& self.spec_height() >= 1
        &&& self.spec_uniform_contents() == uniforms::rt_metrics(
            self.spec_width(),
            self.spec_height(),
        )
    }

    /// Allocates the three intermediate targets at exactly the given size
    /// (capture buffer in the caller's output format, two-channel edge
    /// buffer, four-channel blend buffer) and the uniform buffer holding
    /// the resolution metrics.
    pub fn new(device: &wgpu::Device, width: u32, height: u32, format: &wgpu::TextureFormat) -> (r:
        Targets)
        requires
            width >= 1,
            height >= 1,
        ensures
            r.spec_width() == width,
            r.spec_height() == height,
            r.spec_uniform_contents() == uniforms::rt_metrics(width, height),
            r.spec_format() == *format,
            r.wf(),
    {
        let uniform_data = uniforms::rt_uniform_data(width, height);
        let rt_uniforms = backend::create_uniform_buffer(device, "smaa.uniforms", &uniform_data);
        let color_texture = backend::create_render_target(
            device,
            width,
            height,
            format,
            "smaa.texture.color_target",
        );
        let edges_texture = backend::create_render_target(
            device,
            width,
            height,
            &backend::edge_target_format(),
            "smaa.texture.edge_target",
        );
        let blend_texture = backend::create_render_target(
            device,
            width,
            height,
            &backend::blend_target_format(),
            "smaa.texture.blend_target",
        );
        Targets {
            rt_uniforms,
            color_target: backend::texture_view(&color_texture, "smaa.color_target.view"),
            edges_target: backend::texture_view(&edges_texture, "smaa.texture_view.edge_target"),
            blend_target: backend::texture_view(&blend_texture, "smaa.texture_view.blend_target"),
            width,
            height,
            uniform_bytes: Ghost(uniform_data@),
            format: Ghost(*format),
        }
    }
}

/// Which resource a bind-group slot receives.
#[derive(Copy, Clone, Debug, PartialEq, Eq, Structural)]
pub enum ResourceRole {
    /// The shared bilinear sampler.
    LinearSampler,
    /// The resolution uniform buffer.
    RtUniforms,
    /// The color capture buffer.
    ColorTarget,
    /// The edge buffer.
    EdgesTarget,
    /// The blending-weight buffer.
    BlendTarget,
    /// The area lookup texture.
    AreaLookup,
    /// The search lookup texture.
    SearchLookup,
}

/// One slot of a bind group: a binding index and the resource bound there.
#[derive(Copy, Clone, Debug, PartialEq, Eq, Structural)]
pub struct BindingAssignment {
    /// Binding index as seen by the shader.
    pub binding: u32,
    /// The resource bound at that index.
    pub resource: ResourceRole,
}

/// Bindings of the edge-detection pass: it reads the capture buffer.
pub open spec fn edge_detect_bindings() -> Seq<BindingAssignment> {
    seq![
        BindingAssignment { binding: 0, resource: ResourceRole::LinearSampler },
        BindingAssignment { binding: 1, resource: ResourceRole::RtUniforms },
        BindingAssignment { binding: 2, resource: ResourceRole::ColorTarget },
    ]
}

/// Bindings of the blending-weight pass: it reads the edge buffer and the
/// two lookup tables.
pub open spec fn blend_weight_bindings() -> Seq<BindingAssignment> {
    seq![
        BindingAssignment { binding: 0, resource: ResourceRole::LinearSampler },
        BindingAssignment { binding: 1, resource: ResourceRole::RtUniforms },
        BindingAssignment { binding: 2, resource: ResourceRole::EdgesTarget },
        BindingAssignment { binding: 3, resource: ResourceRole::AreaLookup },
        BindingAssignment { binding: 4, resource: ResourceRole::SearchLookup },
    ]
}

/// Bindings of the neighborhood-blending pass: it reads the capture buffer
/// and the blending-weight buffer.
pub open spec fn neighborhood_blending_bindings() -> Seq<BindingAssignment> {
    seq![
        BindingAssignment { binding: 0, resource: ResourceRole::LinearSampler },
        BindingAssignment { binding: 1, resource: ResourceRole::RtUniforms },
        BindingAssignment { binding: 2, resource: ResourceRole::ColorTarget },
        BindingAssignment { binding: 3, resource: ResourceRole::BlendTarget },
    ]
}

/// The edge-detection bindings as a value.
pub fn edge_detect_binding_assignments() -> (r: Vec<BindingAssignment>)
    ensures
        r@ == edge_detect_bindings(),
{
    let mut v: Vec<BindingAssignment> = Vec::new();
    v.push(BindingAssignment { binding: 0, resource: ResourceRole::LinearSampler });
    v.push(BindingAssignment { binding: 1, resource: ResourceRole::RtUniforms });
    v.push(BindingAssignment { binding: 2, resource: ResourceRole::ColorTarget });
    proof {
        assert(v@ =~= edge_detect_bindings());
    }
    v
}

/// The blending-weight bindings as a value.
pub fn blend_weight_binding_assignments() -> (r: Vec<BindingAssignment>)
    ensures
        r@ == blend_weight_bindings(),
{
    let mut v: Vec<BindingAssignment> = Vec::new();
    v.push(BindingAssignment { binding: 0, resource: ResourceRole::LinearSampler });
    v.push(BindingAssignment { binding: 1, resource: ResourceRole::RtUniforms });
    v.push(BindingAssignment { binding: 2, resource: ResourceRole::EdgesTarget });
    v.push(BindingAssignment { binding: 3, resource: ResourceRole::AreaLookup });
    v.push(BindingAssignment { binding: 4, resource: ResourceRole::SearchLookup });
    proof {
        assert(v@ =~= blend_weight_bindings());
    }
    v
}

/// The neighborhood-blending bindings as a value.
pub fn neighborhood_blending_binding_assignments() -> (r: Vec<BindingAssignment>)
    ensures
        r@ == neighborhood_blending_bindings(),
{
    let mut v: Vec<BindingAssignment> = Vec::new();
    v.push(BindingAssignment { binding: 0, resource: ResourceRole::LinearSampler });
    v.push(BindingAssignment { binding: 1, resource: ResourceRole::RtUniforms });
    v.push(BindingAssignment { binding: 2, resource: ResourceRole::ColorTarget });
    v.push(BindingAssignment { binding: 3, resource: ResourceRole::BlendTarget });
    proof {
        assert(v@ =~= neighborhood_blending_bindings());
    }
    v
}

/// The layout slot kind a resource fills.
pub open spec fn role_kind(r: ResourceRole) -> BindingKind {
    match r {
        ResourceRole::LinearSampler => BindingKind::FilteringSampler,
        ResourceRole::RtUniforms => BindingKind::UniformBuffer,
        _ => BindingKind::SampledTexture,
    }
}

/// A binding list fills a layout exactly: same length, same binding
/// indices in the same order, and each resource of the kind its slot
/// declares.
pub open spec fn bindings_match_layout(
    bs: Seq<BindingAssignment>,
    ls: Seq<LayoutSlot>,
) -> bool {
    &&& bs.len() == ls.len()
    &&& forall|i: int|
        0 <= i < bs.len() ==> (#[trigger] bs[i]).binding == ls[i].binding && role_kind(
            bs[i].resource,
        ) == ls[i].kind
}

/// Each pass's bind group fills exactly the bind-group layout its
/// pipeline declares.
pub proof fn lemma_bindings_match_layouts()
    ensures
        bindings_match_layout(edge_detect_bindings(), edge_detect_layout()),
        bindings_match_layout(blend_weight_bindings(), blend_weight_layout()),
        bindings_match_layout(neighborhood_blending_bindings(), neighborhood_blending_layout()),
{
}

/// Translates binding assignments, in order, into wgpu bind-group entries
/// referencing the actual resources.
fn lower_binding_assignments<'a>(
    assigns: &Vec<BindingAssignment>,
    resources: &'a Resources,
    targets: &'a Targets,
    area_view: &'a wgpu::TextureView,
    search_view: &'a wgpu::TextureView,
) -> (r: Vec<wgpu::BindGroupEntry<'a>>)
    ensures
        r@.len() == assigns@.len(),
{
    let mut entries: Vec<wgpu::BindGroupEntry<'a>> = Vec::new();
    let mut i: usize = 0;
    while i < assigns.len()
        invariant
            i <= assigns@.len(),
            entries@.len() == i,
        decreases assigns@.len() - i,
    {
        let a = assigns[i];
        let entry = match a.resource {
            ResourceRole::LinearSampler => backend::sampler_entry(
                a.binding,
                &resources.linear_sampler,
            ),
            ResourceRole::RtUniforms => backend::uniform_entry(a.binding, &targets.rt_uniforms),
            ResourceRole::ColorTarget => backend::texture_view_entry(
                a.binding,
                &targets.color_target,
            ),
            ResourceRole::EdgesTarget => backend::texture_view_entry(
                a.binding,
                &targets.edges_target,
            ),
            ResourceRole::BlendTarget => backend::texture_view_entry(
                a.binding,
                &targets.blend_target,
            ),
            ResourceRole::AreaLookup => backend::texture_view_entry(a.binding, area_view),
            ResourceRole::SearchLookup => backend::texture_view_entry(a.binding, search_view),
        };
        entries.push(entry);
        i = i + 1;
    }
    entries
}

/// The three bind groups tying the static resources and the current
/// per-resolution targets to the pipelines. Rebuilt whenever the targets
/// are replaced, because bindings must be rebuilt when the resources they
/// reference are.
pub struct BindGroups {
    /// Bind group realizing [`edge_detect_bindings`].
    edge_detect_bind_group: wgpu::BindGroup,
    /// Bind group realizing [`blend_weight_bindings`].
    blend_weight_bind_group: wgpu::BindGroup,
    /// Bind group realizing [`neighborhood_blending_bindings`].
    neighborhood_blending_bind_group: wgpu::BindGroup,
    /// Size of the targets these bind groups reference.
    target_size: Ghost<(u32, u32)>,
    /// The assignment lists the three groups were lowered from, in pass
    /// order.
    assignment_models: Ghost<
        (Seq<BindingAssignment>, Seq<BindingAssignment>, Seq<BindingAssignment>),
    >,
}

impl BindGroups {
    /// Size of the targets these bind groups reference.
    pub closed spec fn spec_target_size(&self) -> (u32, u32) {
        self.target_size@
    }

    /// The assignment lists the three groups were lowered from, in pass
    /// order: edge detection, blending weight, neighborhood blending.
    pub closed spec fn spec_assignment_models(&self) -> (
        Seq<BindingAssignment>,
        Seq<BindingAssignment>,
        Seq<BindingAssignment>,
    ) {
        self.assignment_models@
    }

    /// Builds the three bind groups over the given layouts, static
    /// resources and targets, each lowered slot by slot from its stated
    /// assignment list.
    fn new(
        device: &wgpu::Device,
        layouts: &BindGroupLayouts,
        resources: &Resources,
        targets: &Targets,
    ) -> (r: BindGroups)
        ensures
            r.spec_target_size() == (targets.spec_width(), targets.spec_height()),
            r.spec_assignment_models() == (
                edge_detect_bindings(),
                blend_weight_bindings(),
                neighborhood_blending_bindings(),
            ),
    {
        let area_view = backend::texture_view(&resources.area_texture, "smaa.texture_view.area");
        let search_view = backend::texture_view(
            &resources.search_texture,
            "smaa.texture_view.search",
        );
        let edge_assignments = edge_detect_binding_assignments();
        let blend_assignments = blend_weight_binding_assignments();
        let neighborhood_assignments = neighborhood_blending_binding_assignments();
        let edge_entries = lower_binding_assignments(
            &edge_assignments,
            resources,
            targets,
            &area_view,
            &search_view,
        );
        let blend_entries = lower_binding_assignments(
            &blend_assignments,
            resources,
            targets,
            &area_view,
            &search_view,
        );
        let neighborhood_entries = lower_binding_assignments(
            &neighborhood_assignments,
            resources,
            targets,
            &area_view,
            &search_view,
        );
        BindGroups {
            assignment_models: Ghost(
                (edge_assignments@, blend_assignments@, neighborhood_assignments@),
            ),
            edge_detect_bind_group: backend::create_bind_group(
                device,
                "smaa.bind_group.edge_detect",
                &layouts.edge_detect_bind_group_layout,
                &edge_entries,
            ),
            blend_weight_bind_group: backend::create_bind_group(
                device,
                "smaa.bind_group.blend_weight",
                &layouts.blend_weight_bind_group_layout,
                &blend_entries,
            ),
            neighborhood_blending_bind_group: backend::create_bind_group(
                device,
                "smaa.bind_group.neighborhood_blending",
                &layouts.neighborhood_blending_bind_group_layout,
                &neighborhood_entries,
            ),
            target_size: Ghost((targets.spec_width(), targets.spec_height())),
        }
    }
}

/// The attachment a pass renders into.
#[derive(Copy, Clone, Debug, PartialEq, Eq, Structural)]
pub enum AttachmentRole {
    /// The edge buffer.
    EdgesTarget,
    /// The blending-weight buffer.
    BlendTarget,
    /// The caller's real output view.
    FrameOutput,
}

/// One pass of the resolve submission: which pipeline and bind group run,
/// where the result goes, and what is drawn.
#[derive(Copy, Clone, Debug, PartialEq, Eq, Structural)]
pub struct PassPlan {
    /// The pass (selects its pipeline and bind group).
    pub kind: PassKind,
    /// The attachment rendered into.
    pub output: AttachmentRole,
    /// The attachment is cleared to opaque black before the draw.
    pub clear_to_black: bool,
    /// Vertices drawn: a single full-screen triangle.
    pub vertex_count: u32,
    /// Instances drawn.
    pub instance_count: u32,
}

/// The fixed submission of a resolve: exactly three passes, in order —
/// edge detection into the edge buffer, blending-weight estimation into
/// the blend buffer, neighborhood blending into the caller's output —
/// each clearing its attachment and drawing one full-screen triangle.
/// The order cannot change: each later pass samples exactly the buffer
/// the earlier one wrote.
pub open spec fn resolve_plan() -> Seq<PassPlan> {
    seq![
        PassPlan {
            kind: PassKind::EdgeDetect,
            output: AttachmentRole::EdgesTarget,
            clear_to_black: true,
            vertex_count: 3,
            instance_count: 1,
        },
        PassPlan {
            kind: PassKind::BlendWeight,
            output: AttachmentRole::BlendTarget,
            clear_to_black: true,
            vertex_count: 3,
            instance_count: 1,
        },
        PassPlan {
            kind: PassKind::NeighborhoodBlend,
            output: AttachmentRole::FrameOutput,
            clear_to_black: true,
            vertex_count: 3,
            instance_count: 1,
        },
    ]
}

/// The resolve submission as a value.
pub fn resolve_pass_plan() -> (r: Vec<PassPlan>)
    ensures
        r@ == resolve_plan(),
{
    let mut v: Vec<PassPlan> = Vec::new();
    v.push(
        PassPlan {
            kind: PassKind::EdgeDetect,
            output: AttachmentRole::EdgesTarget,
            clear_to_black: true,
            vertex_count: 3,
            instance_count: 1,
        },
    );
    v.push(
        PassPlan {
            kind: PassKind::BlendWeight,
            output: AttachmentRole::BlendTarget,
            clear_to_black: true,
            vertex_count: 3,
            instance_count: 1,
        },
    );
    v.push(
        PassPlan {
            kind: PassKind::NeighborhoodBlend,
            output: AttachmentRole::FrameOutput,
            clear_to_black: true,
            vertex_count: 3,
            instance_count: 1,
        },
    );
    proof {
        assert(v@ =~= resolve_plan());
    }
    v
}

/// The full resource bundle held while antialiasing is enabled.
struct SmaaTargetInner {
    /// Built once per output format and quality; stable across resizes.
    pipelines: Pipelines,
    /// Built once per device; stable across resizes.
    layouts: BindGroupLayouts,
    /// Built once per device; stable across resizes.
    resources: Resources,
    /// Replaced on every resize.
    targets: Targets,
    /// Rebuilt on every resize, against the new targets.
    bind_groups: BindGroups,
    /// The output pixel format chosen at construction.
    format: wgpu::TextureFormat,
}

/// Wraps a color buffer that is resolved into an antialiased image by the
/// three-pass algorithm; when disabled it holds no GPU resources at all.
pub struct SmaaTarget {
    inner: Option<SmaaTargetInner>,
}

impl SmaaTarget {
    /// Whether antialiasing is enabled (chosen at construction, immutable).
    pub closed spec fn is_enabled(&self) -> bool {
        self.inner is Some
    }

    /// Size in pixels of the intermediate targets, when enabled.
    pub closed spec fn spec_size(&self) -> (u32, u32) {
        (self.inner->Some_0.targets.spec_width(), self.inner->Some_0.targets.spec_height())
    }

    /// Contents of the resolution uniform buffer, when enabled.
    pub closed spec fn spec_uniform_contents(&self) -> Seq<u8> {
        self.inner->Some_0.targets.spec_uniform_contents()
    }

    /// Size of the targets the current bind groups reference.
    pub closed spec fn spec_binding_size(&self) -> (u32, u32) {
        self.inner->Some_0.bind_groups.spec_target_size()
    }

    /// The three pipelines, when enabled.
    pub closed spec fn spec_pipelines(&self) -> Pipelines {
        self.inner->Some_0.pipelines
    }

    /// The three bind-group layouts, when enabled.
    pub closed spec fn spec_layouts(&self) -> BindGroupLayouts {
        self.inner->Some_0.layouts
    }

    /// The static lookup textures and sampler, when enabled.
    pub closed spec fn spec_static_resources(&self) -> Resources {
        self.inner->Some_0.resources
    }

    /// The output pixel format chosen at construction, when enabled.
    pub closed spec fn spec_format(&self) -> wgpu::TextureFormat {
        self.inner->Some_0.format
    }

    /// The capture-buffer view, when enabled.
    pub closed spec fn spec_color_target(&self) -> wgpu::TextureView {
        self.inner->Some_0.targets.color_target
    }

    /// The slot lists the three bind-group layouts declare, when enabled.
    pub closed spec fn spec_layout_models(&self) -> (
        Seq<LayoutSlot>,
        Seq<LayoutSlot>,
        Seq<LayoutSlot>,
    ) {
        self.inner->Some_0.layouts.spec_slot_models()
    }

    /// The models the three pipelines were built to, when enabled.
    pub closed spec fn spec_pipeline_models(&self) -> Seq<PipelineModel> {
        self.inner->Some_0.pipelines.spec_model()
    }

    /// The output format the final pass renders to, when enabled.
    pub closed spec fn spec_pipeline_output_format(&self) -> wgpu::TextureFormat {
        self.inner->Some_0.pipelines.spec_output_format()
    }

    /// When enabled: the targets describe their own size in the uniform
    /// buffer and were created in the stored output format, and the bind
    /// groups reference targets of the current size and realize exactly
    /// the three stated binding maps.
    pub closed spec fn wf(&self) -> bool {
        self.inner matches Some(inner) ==> {
            &&& inner.targets.wf()
            &&& inner.targets.spec_format() == inner.format
            &&& inner.bind_groups.spec_target_size() == (
                inner.targets.spec_width(),
                inner.targets.spec_height(),
            )
            &&& inner.bind_groups.spec_assignment_models() == (
                edge_detect_bindings(),
                blend_weight_bindings(),
                neighborhood_blending_bindings(),
            )
        }
    }

    /// Creates a new target. With mode [`SmaaMode::Disabled`] this always
    /// succeeds and holds no GPU resources (the size and assets are not
    /// used). Otherwise it builds the whole resource bundle in dependency
    /// order, succeeding exactly when the compiler accepts all six
    /// assembled shader variants of the supplied algorithm source, and
    /// failing with the first it rejects.
    pub fn new(
        device: &wgpu::Device,
        queue: &wgpu::Queue,
        width: u32,
        height: u32,
        format: wgpu::TextureFormat,
        mode: SmaaMode,
        assets: SmaaAssets<'_>,
    ) -> (r: Result<SmaaTarget, shader::CompileError>)
        requires
            mode != SmaaMode::Disabled ==> width >= 1,
            mode != SmaaMode::Disabled ==> height >= 1,
            mode != SmaaMode::Disabled ==> assets.wf(),
        ensures
            mode == SmaaMode::Disabled ==> (r matches Ok(t) && !t.is_enabled() && t.wf()),
            mode != SmaaMode::Disabled ==> (r is Ok <==> pipelines_compile_ok(
                shader::ShaderQuality::High,
                ToneMapping::Disabled,
                assets.algorithm_source@,
            )),
            mode != SmaaMode::Disabled ==> (r matches Ok(t) ==> t.is_enabled() && t.wf()
                && t.spec_size() == (width, height) && t.spec_binding_size() == (width, height)
                && t.spec_uniform_contents() == uniforms::rt_metrics(width, height)
                && t.spec_format() == format && t.spec_static_resources().spec_area_model() == (
                assets.area_lookup@,
                AREATEX_WIDTH,
                AREATEX_HEIGHT,
            ) && t.spec_static_resources().spec_search_model() == (
                assets.search_lookup@,
                SEARCHTEX_WIDTH,
                SEARCHTEX_HEIGHT,
            ) && t.spec_layout_models() == (
                edge_detect_layout(),
                blend_weight_layout(),
                neighborhood_blending_layout(),
            ) && t.spec_pipeline_models() == pipelines_model(
                shader::ShaderQuality::High,
                ToneMapping::Disabled,
            ) && t.spec_pipeline_output_format() == format),
    {
        if let SmaaMode::Disabled = mode {
            return Ok(SmaaTarget { inner: None });
        }
        let layouts = BindGroupLayouts::new(device);
        let pipelines = Pipelines::new(device, &format, &layouts, assets.algorithm_source)?;
        let resources = Resources::new(device, queue, &assets);
        let targets = Targets::new(device, width, height, &format);
        let bind_groups = BindGroups::new(device, &layouts, &resources, &targets);
        Ok(
            SmaaTarget {
                inner: Some(
                    SmaaTargetInner { layouts, pipelines, resources, targets, bind_groups, format },
                ),
            },
        )
    }

    /// Resizes the render target: replaces the per-resolution targets and
    /// rebuilds the bind groups against them, leaving the pipelines,
    /// layouts and static resources untouched. A no-op when disabled.
    /// Must not be called while a frame of the previous size is still
    /// open.
    pub fn resize(&mut self, device: &wgpu::Device, width: u32, height: u32)
        requires
            old(self).is_enabled() ==> width >= 1,
            old(self).is_enabled() ==> height >= 1,
        ensures
            resize_post(*old(self), *final(self), width, height),
    {
        match self.inner.take() {
            None => {},
            Some(mut inner) => {
                inner.targets = Targets::new(device, width, height, &inner.format);
                inner.bind_groups = BindGroups::new(
                    device,
                    &inner.layouts,
                    &inner.resources,
                    &inner.targets,
                );
                self.inner = Some(inner);
            },
        }
    }

    /// Starts rendering a frame: the returned scope exposes the view the
    /// scene should be rendered into, and resolving it runs the three-pass
    /// submission into `output_view`. No second frame may be started, and
    /// the target must not be resized, while the scope is open.
    pub fn start_frame<'a>(
        &'a self,
        device: &'a wgpu::Device,
        queue: &'a wgpu::Queue,
        output_view: &'a wgpu::TextureView,
    ) -> (r: SmaaFrame<'a>)
        ensures
            r.spec_target() == *self,
            r.spec_device() == *device,
            r.spec_queue() == *queue,
            r.spec_output_view() == *output_view,
    {
        SmaaFrame { target: self, device, queue, output_view }
    }
}

/// Everything [`SmaaTarget::resize`] promises of the target after the
/// call, given the target before it: enabledness is unchanged; when
/// disabled the target is untouched; when enabled, the pipelines, layouts,
/// static resources and format are the same objects as before, while the
/// targets and bind groups now have exactly the new size and the uniform
/// buffer holds the new resolution metrics.
pub open spec fn resize_post(pre: SmaaTarget, post: SmaaTarget, width: u32, height: u32) -> bool {
    &&& post.is_enabled() == pre.is_enabled()
    &&& post.wf()
    &&& !pre.is_enabled() ==> post == pre
    &&& pre.is_enabled() ==> {
        &&& post.spec_pipelines() == pre.spec_pipelines()
        &&& post.spec_layouts() == pre.spec_layouts()
        &&& post.spec_static_resources() == pre.spec_static_resources()
        &&& post.spec_format() == pre.spec_format()
        &&& post.spec_size() == (width, height)
        &&& post.spec_binding_size() == (width, height)
        &&& post.spec_uniform_contents() == uniforms::rt_metrics(width, height)
    }
}

/// Resizing an enabled target back to its current size changes nothing
/// observable: the new bind groups reference targets of exactly the old
/// size, the uniform contents are unchanged, and the pipelines, layouts
/// and static resources are the same objects.
pub proof fn lemma_resize_round_trip(pre: SmaaTarget, post: SmaaTarget, width: u32, height: u32)
    requires
        pre.is_enabled(),
        pre.wf(),
        pre.spec_size() == (width, height),
        resize_post(pre, post, width, height),
    ensures
        post.spec_size() == pre.spec_size(),
        post.spec_binding_size() == pre.spec_binding_size(),
        post.spec_uniform_contents() == pre.spec_uniform_contents(),
        post.spec_pipelines() == pre.spec_pipelines(),
        post.spec_layouts() == pre.spec_layouts(),
        post.spec_static_resources() == pre.spec_static_resources(),
{
}

/// The submission a resolve makes, as a function of the target alone:
/// the fixed three-pass plan when enabled, nothing when disabled.
pub open spec fn resolve_report(t: SmaaTarget) -> Option<Seq<PassPlan>> {
    if t.is_enabled() {
        Some(resolve_plan())
    } else {
        None
    }
}

/// A frame borrows its target and cannot change it, and the submission
/// depends only on whether antialiasing is enabled: two frames begun,
/// written and resolved in sequence with no resize between them produce
/// structurally identical submissions.
pub proof fn lemma_consecutive_frames_identical(t1: SmaaTarget, t2: SmaaTarget)
    requires
        t1.is_enabled() == t2.is_enabled(),
    ensures
        resolve_report(t1) == resolve_report(t2),
{
}

/// A frame in flight: the scene is rendered into [`SmaaFrame::writable_view`],
/// and [`SmaaFrame::resolve`] runs the three-pass resolve into the real
/// output. Bound to one frame; holds only borrows, never GPU resources.
pub struct SmaaFrame<'a> {
    /// The target the frame belongs to.
    target: &'a SmaaTarget,
    /// The device that encodes the resolve.
    device: &'a wgpu::Device,
    /// The queue the resolve is submitted to.
    queue: &'a wgpu::Queue,
    /// The real output view of this frame.
    output_view: &'a wgpu::TextureView,
}

impl<'a> SmaaFrame<'a> {
    /// The target this frame belongs to.
    pub closed spec fn spec_target(&self) -> SmaaTarget {
        *self.target
    }

    /// The device the resolve is encoded on.
    pub closed spec fn spec_device(&self) -> wgpu::Device {
        *self.device
    }

    /// The queue the resolve is submitted to.
    pub closed spec fn spec_queue(&self) -> wgpu::Queue {
        *self.queue
    }

    /// The real output view of this frame.
    pub closed spec fn spec_output_view(&self) -> wgpu::TextureView {
        *self.output_view
    }

    /// The view the scene should be rendered into: the real output when
    /// antialiasing is disabled (the scene then renders straight to the
    /// target and the resolve does nothing), else the capture buffer.
    pub fn writable_view(&self) -> (r: &wgpu::TextureView)
        ensures
            !self.spec_target().is_enabled() ==> *r == self.spec_output_view(),
            self.spec_target().is_enabled() ==> *r == self.spec_target().spec_color_target(),
    {
        match &self.target.inner {
            None => self.output_view,
            Some(inner) => &inner.targets.color_target,
        }
    }

    /// Ends the frame. When enabled, encodes the three passes of
    /// [`resolve_plan`], in order, each running its pipeline and bind
    /// group into its attachment, and hands them to the queue as one
    /// submission; the returned report is exactly that plan. When
    /// disabled, no GPU work is done and no submission is made.
    pub fn resolve(self) -> (r: Option<Vec<PassPlan>>)
        ensures
            self.spec_target().is_enabled() ==> (r matches Some(p) && p@ == resolve_plan()),
            !self.spec_target().is_enabled() ==> r is None,
    {
        match &self.target.inner {
            None => None,
            Some(inner) => {
                let plan = resolve_pass_plan();
                let mut encoder = backend::create_command_encoder(
                    self.device,
                    "smaa.command_encoder",
                );
                let mut i: usize = 0;
                while i < plan.len()
                    invariant
                        plan@ == resolve_plan(),
                        i <= plan@.len(),
                    decreases plan@.len() - i,
                {
                    let p = plan[i];
                    let pipeline = match p.kind {
                        PassKind::EdgeDetect => &inner.pipelines.edge_detect,
                        PassKind::BlendWeight => &inner.pipelines.blend_weight,
                        PassKind::NeighborhoodBlend => &inner.pipelines.neighborhood_blending,
                    };
                    let bind_group = match p.kind {
                        PassKind::EdgeDetect => &inner.bind_groups.edge_detect_bind_group,
                        PassKind::BlendWeight => &inner.bind_groups.blend_weight_bind_group,
                        PassKind::NeighborhoodBlend => &inner
                            .bind_groups
                            .neighborhood_blending_bind_group,
                    };
                    let label = match p.kind {
                        PassKind::EdgeDetect => "smaa.render_pass.edge_detect",
                        PassKind::BlendWeight => "smaa.render_pass.blend_weight",
                        PassKind::NeighborhoodBlend => "smaa.render_pass.neighborhood_blending",
                    };
                    let view = match p.output {
                        AttachmentRole::EdgesTarget => &inner.targets.edges_target,
                        AttachmentRole::BlendTarget => &inner.targets.blend_target,
                        AttachmentRole::FrameOutput => self.output_view,
                    };
                    backend::encode_clear_pass(
                        &mut encoder,
                        label,
                        view,
                        pipeline,
                        bind_group,
                        p.vertex_count,
                        p.instance_count,
                    );
                    i = i + 1;
                }
                backend::submit_one(self.queue, backend::finish_encoder(encoder));
                Some(plan)
            },
        }
    }
}

} // verus!
