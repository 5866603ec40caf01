//! Assembly of the per-stage shader source and its compilation to SPIR-V.
//!
//! A single shared GLSL algorithm source is specialized per pipeline stage by
//! concatenating a preprocessor header (quality preset, stage-role token,
//! resolution-uniform plumbing), the shared source, and a role-specific
//! entry-point body.

use naga::back::spv;
use naga::back::spv::{PipelineOptions, WriterFlags};
use naga::front::glsl::{Frontend, Options};
use naga::valid::{Capabilities, ValidationFlags, Validator};
use naga::ShaderStage as NagaStage;
use vstd::prelude::*;
use vstd::string::StringExecFns;

verus! {

/// Quality preset for the antialiasing algorithm; selects the numerical
/// thresholds baked into the compiled shader, not the pipeline topology.
#[allow(dead_code)]
#[derive(Copy, Clone, Debug, PartialEq, Eq, Structural)]
pub enum ShaderQuality {
    /// Lowest quality, fastest.
    Low,
    /// Medium quality.
    Medium,
    /// High quality (the default used by the pipelines).
    High,
    /// Highest quality, slowest.
    Ultra,
}

/// The preprocessor token that selects a quality preset in the shared source.
pub open spec fn quality_token(q: ShaderQuality) -> Seq<char> {
    match q {
        ShaderQuality::Low => "LOW"@,
        ShaderQuality::Medium => "MEDIUM"@,
        ShaderQuality::High => "HIGH"@,
        ShaderQuality::Ultra => "ULTRA"@,
    }
}

impl ShaderQuality {
    /// The preset token spliced into `#define SMAA_PRESET_...`.
    pub fn as_str(&self) -> (r: &'static str)
        ensures
            r@ == quality_token(*self),
    {
        match *self {
            ShaderQuality::Low => "LOW",
            ShaderQuality::Medium => "MEDIUM",
            ShaderQuality::High => "HIGH",
            ShaderQuality::Ultra => "ULTRA",
        }
    }
}

/// Pipeline stage role: each variant fixes a shader kind (vertex or
/// fragment) and the entry-point body spliced under the shared source.
#[derive(Copy, Clone, Debug, PartialEq, Eq, Structural)]
pub enum ShaderStage {
    /// Vertex stage of the edge-detection pass.
    EdgeDetectionVS,
    /// Fragment stage of the edge-detection pass (luma-based).
    LumaEdgeDetectionPS,
    /// Vertex stage of the blending-weight pass.
    BlendingWeightVS,
    /// Fragment stage of the blending-weight pass.
    BlendingWeightPS,
    /// Vertex stage of the neighborhood-blending pass.
    NeighborhoodBlendingVS,
    /// Fragment stage of the neighborhood-blending pass.
    NeighborhoodBlendingPS,
    /// Fragment stage of the neighborhood-blending pass with an ACES
    /// tone-mapping curve applied after the blend.
    NeighborhoodBlendingAcesTonemapPS,
}

/// Whether a stage role is a vertex shader (else it is a fragment shader).
pub open spec fn stage_is_vertex(st: ShaderStage) -> bool {
    match st {
        ShaderStage::EdgeDetectionVS => true,
        ShaderStage::BlendingWeightVS => true,
        ShaderStage::NeighborhoodBlendingVS => true,
        ShaderStage::LumaEdgeDetectionPS => false,
        ShaderStage::BlendingWeightPS => false,
        ShaderStage::NeighborhoodBlendingPS => false,
        ShaderStage::NeighborhoodBlendingAcesTonemapPS => false,
    }
}

/// The entry-point body of a stage role: it declares the role's inputs and
/// outputs and calls the matching stage function of the shared source.
pub open spec fn stage_entry(st: ShaderStage) -> Seq<char> {
    match st {
        ShaderStage::EdgeDetectionVS => "layout(location = 0) out float4 offset0;
layout(location = 1) out float4 offset1;
layout(location = 2) out float4 offset2;
layout(location = 3) out float2 texcoord;
void main() {
    if(gl_VertexIndex == 0) gl_Position = vec4(-1, -1, 1, 1);
    if(gl_VertexIndex == 1) gl_Position = vec4(-1,  3, 1, 1);
    if(gl_VertexIndex == 2) gl_Position = vec4( 3, -1, 1, 1);
    texcoord = gl_Position.xy * vec2(0.5) + vec2(0.5);
    float4 offset[3];
    SMAAEdgeDetectionVS(texcoord, offset);
    offset0=offset[0];
    offset1=offset[1];
    offset2=offset[2];
}"@,
        ShaderStage::BlendingWeightVS => "layout(location = 0) out float2 pixcoord;
layout(location = 1) out float4 offset0;
layout(location = 2) out float4 offset1;
layout(location = 3) out float4 offset2;
layout(location = 4) out float2 texcoord;
void main() {
    if(gl_VertexIndex == 0) gl_Position = vec4(-1, -1, 1, 1);
    if(gl_VertexIndex == 1) gl_Position = vec4(-1,  3, 1, 1);
    if(gl_VertexIndex == 2) gl_Position = vec4( 3, -1, 1, 1);
    texcoord = gl_Position.xy * vec2(0.5) + vec2(0.5);
    float4 offset[3];
    SMAABlendingWeightCalculationVS(texcoord, pixcoord, offset);
    offset0=offset[0];
    offset1=offset[1];
    offset2=offset[2];
}"@,
        ShaderStage::NeighborhoodBlendingVS => "layout(location = 0) out float4 offset;
layout(location = 1) out float2 texcoord;
void main() {
    if(gl_VertexIndex == 0) gl_Position = vec4(-1, -1, 1, 1);
    if(gl_VertexIndex == 1) gl_Position = vec4(-1,  3, 1, 1);
    if(gl_VertexIndex == 2) gl_Position = vec4( 3, -1, 1, 1);
    texcoord = gl_Position.xy * vec2(0.5) + vec2(0.5);
    SMAANeighborhoodBlendingVS(texcoord, offset);
}"@,
        ShaderStage::LumaEdgeDetectionPS => "layout(location = 0) in float4 offset0;
layout(location = 1) in float4 offset1;
layout(location = 2) in float4 offset2;
layout(location = 3) in float2 texcoord;
layout(set = 0, binding = 2) uniform texture2D colorTex;
layout(location = 0) out float2 OutColor;
void main() {
    float4 offset[3];
    offset[0] = offset0;
    offset[1] = offset1;
    offset[2] = offset2;
    OutColor = SMAALumaEdgeDetectionPS(texcoord, offset, colorTex);
}"@,
        ShaderStage::BlendingWeightPS => "layout(location = 0) in float2 pixcoord;
layout(location = 1) in float4 offset0;
layout(location = 2) in float4 offset1;
layout(location = 3) in float4 offset2;
layout(location = 4) in float2 texcoord;
layout(set = 0, binding = 2) uniform texture2D edgesTex;
layout(set = 0, binding = 3) uniform texture2D areaTex;
layout(set = 0, binding = 4) uniform texture2D searchTex;
layout(location = 0) out float4 OutColor;
void main() {
    vec4 subsampleIndices = vec4(0);
    float4 offset[3];
    offset[0] = offset0;
    offset[1] = offset1;
    offset[2] = offset2;
    OutColor = SMAABlendingWeightCalculationPS(texcoord, pixcoord, offset,
        edgesTex, areaTex, searchTex, subsampleIndices);
}"@,
        ShaderStage::NeighborhoodBlendingPS => "layout(location = 0) in float4 offset;
layout(location = 1) in float2 texcoord;
layout(set = 0, binding = 2) uniform texture2D colorTex;
layout(set = 0, binding = 3) uniform texture2D blendTex;
layout(location = 0) out float4 OutColor;
void main() {
    OutColor = SMAANeighborhoodBlendingPS(texcoord, offset, colorTex, blendTex);
}"@,
        ShaderStage::NeighborhoodBlendingAcesTonemapPS => "layout(location = 0) in float4 offset;
layout(location = 1) in float2 texcoord;
layout(set = 0, binding = 2) uniform texture2D colorTex;
layout(set = 0, binding = 3) uniform texture2D blendTex;
layout(location = 0) out float4 OutColor;
void main() {
    float a = 2.51f;
    float b = 0.03f;
    float c = 2.43f;
    float d = 0.59f;
    float e = 0.14f;
    OutColor = SMAANeighborhoodBlendingPS(texcoord, offset, colorTex, blendTex);
    vec3 x = OutColor.rgb;
    OutColor.rgb = clamp((x*(a*x+b))/(x*(c*x+d)+e), vec3(0), vec3(1));
}"@,
    }
}

impl ShaderStage {
    /// Whether this role compiles as a vertex shader.
    pub fn is_vertex_shader(&self) -> (r: bool)
        ensures
            r == stage_is_vertex(*self),
    {
        match *self {
            ShaderStage::EdgeDetectionVS
            | ShaderStage::BlendingWeightVS
            | ShaderStage::NeighborhoodBlendingVS => true,
            ShaderStage::LumaEdgeDetectionPS
            | ShaderStage::BlendingWeightPS
            | ShaderStage::NeighborhoodBlendingPS
            | ShaderStage::NeighborhoodBlendingAcesTonemapPS => false,
        }
    }

    /// The entry-point body spliced below the shared algorithm source.
    pub fn as_str(&self) -> (r: &'static str)
        ensures
            r@ == stage_entry(*self),
    {
        match *self {
            ShaderStage::EdgeDetectionVS => "layout(location = 0) out float4 offset0;
layout(location = 1) out float4 offset1;
layout(location = 2) out float4 offset2;
layout(location = 3) out float2 texcoord;
void main() {
    if(gl_VertexIndex == 0) gl_Position = vec4(-1, -1, 1, 1);
    if(gl_VertexIndex == 1) gl_Position = vec4(-1,  3, 1, 1);
    if(gl_VertexIndex == 2) gl_Position = vec4( 3, -1, 1, 1);
    texcoord = gl_Position.xy * vec2(0.5) + vec2(0.5);
    float4 offset[3];
    SMAAEdgeDetectionVS(texcoord, offset);
    offset0=offset[0];
    offset1=offset[1];
    offset2=offset[2];
}",
            ShaderStage::BlendingWeightVS => "layout(location = 0) out float2 pixcoord;
layout(location = 1) out float4 offset0;
layout(location = 2) out float4 offset1;
layout(location = 3) out float4 offset2;
layout(location = 4) out float2 texcoord;
void main() {
    if(gl_VertexIndex == 0) gl_Position = vec4(-1, -1, 1, 1);
    if(gl_VertexIndex == 1) gl_Position = vec4(-1,  3, 1, 1);
    if(gl_VertexIndex == 2) gl_Position = vec4( 3, -1, 1, 1);
    texcoord = gl_Position.xy * vec2(0.5) + vec2(0.5);
    float4 offset[3];
    SMAABlendingWeightCalculationVS(texcoord, pixcoord, offset);
    offset0=offset[0];
    offset1=offset[1];
    offset2=offset[2];
}",
            ShaderStage::NeighborhoodBlendingVS => "layout(location = 0) out float4 offset;
layout(location = 1) out float2 texcoord;
void main() {
    if(gl_VertexIndex == 0) gl_Position = vec4(-1, -1, 1, 1);
    if(gl_VertexIndex == 1) gl_Position = vec4(-1,  3, 1, 1);
    if(gl_VertexIndex == 2) gl_Position = vec4( 3, -1, 1, 1);
    texcoord = gl_Position.xy * vec2(0.5) + vec2(0.5);
    SMAANeighborhoodBlendingVS(texcoord, offset);
}",
            ShaderStage::LumaEdgeDetectionPS => "layout(location = 0) in float4 offset0;
layout(location = 1) in float4 offset1;
layout(location = 2) in float4 offset2;
layout(location = 3) in float2 texcoord;
layout(set = 0, binding = 2) uniform texture2D colorTex;
layout(location = 0) out float2 OutColor;
void main() {
    float4 offset[3];
    offset[0] = offset0;
    offset[1] = offset1;
    offset[2] = offset2;
    OutColor = SMAALumaEdgeDetectionPS(texcoord, offset, colorTex);
}",
            ShaderStage::BlendingWeightPS => "layout(location = 0) in float2 pixcoord;
layout(location = 1) in float4 offset0;
layout(location = 2) in float4 offset1;
layout(location = 3) in float4 offset2;
layout(location = 4) in float2 texcoord;
layout(set = 0, binding = 2) uniform texture2D edgesTex;
layout(set = 0, binding = 3) uniform texture2D areaTex;
layout(set = 0, binding = 4) uniform texture2D searchTex;
layout(location = 0) out float4 OutColor;
void main() {
    vec4 subsampleIndices = vec4(0);
    float4 offset[3];
    offset[0] = offset0;
    offset[1] = offset1;
    offset[2] = offset2;
    OutColor = SMAABlendingWeightCalculationPS(texcoord, pixcoord, offset,
        edgesTex, areaTex, searchTex, subsampleIndices);
}",
            ShaderStage::NeighborhoodBlendingPS => "layout(location = 0) in float4 offset;
layout(location = 1) in float2 texcoord;
layout(set = 0, binding = 2) uniform texture2D colorTex;
layout(set = 0, binding = 3) uniform texture2D blendTex;
layout(location = 0) out float4 OutColor;
void main() {
    OutColor = SMAANeighborhoodBlendingPS(texcoord, offset, colorTex, blendTex);
}",
            ShaderStage::NeighborhoodBlendingAcesTonemapPS => "layout(location = 0) in float4 offset;
layout(location = 1) in float2 texcoord;
layout(set = 0, binding = 2) uniform texture2D colorTex;
layout(set = 0, binding = 3) uniform texture2D blendTex;
layout(location = 0) out float4 OutColor;
void main() {
    float a = 2.51f;
    float b = 0.03f;
    float c = 2.43f;
    float d = 0.59f;
    float e = 0.14f;
    OutColor = SMAANeighborhoodBlendingPS(texcoord, offset, colorTex, blendTex);
    vec3 x = OutColor.rgb;
    OutColor.rgb = clamp((x*(a*x+b))/(x*(c*x+d)+e), vec3(0), vec3(1));
}",
        }
    }
}

/// Header text up to the quality-preset token.
pub open spec fn header_before_preset() -> Seq<char> {
    "#version 450 core
#extension GL_EXT_samplerless_texture_functions: require
#define SMAA_GLSL_4
#define SMAA_PRESET_"@
}

/// Header text between the quality-preset token and the stage-role token.
pub open spec fn header_before_role() -> Seq<char> {
    "\n#define SMAA_INCLUDE_"@
}

/// Header text after the stage-role token: it routes the resolution metrics
/// through a uniform block, so compiled pipelines survive a resize.
pub open spec fn header_after_role() -> Seq<char> {
    " 0
#define SMAA_RT_METRICS uniforms.rt
layout(set = 0, binding = 0) uniform sampler linearSampler;
layout(set = 0, binding = 1) uniform UniformBlock {
    vec4 rt;
} uniforms;
"@
}

/// The role token: a vertex shader excludes the shared source's
/// fragment-only branches, and a fragment shader the vertex-only ones.
pub open spec fn excluded_role_token(st: ShaderStage) -> Seq<char> {
    if stage_is_vertex(st) {
        "PS"@
    } else {
        "VS"@
    }
}

/// The full text handed to the shader front-end for one stage variant:
/// preprocessor header, quality preset, role token, the shared algorithm
/// source, and the role's entry-point body.
pub open spec fn assembled_source(q: ShaderQuality, st: ShaderStage, algorithm: Seq<char>) -> Seq<
    char,
> {
    header_before_preset() + quality_token(q) + header_before_role() + excluded_role_token(st)
        + header_after_role() + algorithm + "\n"@ + stage_entry(st)
}

/// Why a shader variant failed to compile. The assembled source is static
/// per build, so any of these is a programmer or asset error; it is
/// surfaced to the caller of construction and never retried.
#[derive(Debug)]
pub enum CompileError {
    /// The front-end parser rejected the assembled source.
    Parse(String),
    /// The validator rejected the parsed module.
    Validate(String),
    /// Lowering the validated module to SPIR-V failed.
    Lower(String),
}

/// Whether the IR compiler accepts this source text as a shader of the
/// given kind (vertex when `vertex` is true, else fragment): a pure
/// function of the text and the kind.
pub uninterp spec fn compile_ok(source: Seq<char>, vertex: bool) -> bool;

/// The SPIR-V words the IR compiler lowers this accepted source text to:
/// a pure function of the text and the kind.
pub uninterp spec fn spirv_of(source: Seq<char>, vertex: bool) -> Seq<u32>;

/// Relies on naga's GLSL front end (`glsl::Frontend::parse`), validator
/// (`valid::Validator::validate`, with empty flags and capability checks,
/// as the backend revalidates the lowered form) and SPIR-V back end
/// (`spv::write_vec`, for the `main` entry point): compiles the source as
/// a shader of the given kind. The writer flags are fixed, so both
/// acceptance and output depend on `(source, vertex)` alone; each phase's
/// rejection is reported as its [`CompileError`] variant.
#[verifier::external_body]
fn compile_glsl(source: &str, vertex: bool) -> (r: Result<Vec<u32>, CompileError>)
    ensures
        r is Ok <==> compile_ok(source@, vertex),
        r matches Ok(words) ==> words@ == spirv_of(source@, vertex),
{
    let stage = if vertex { NagaStage::Vertex } else { NagaStage::Fragment };
    let module = Frontend::default().parse(&Options::from(stage), source)
        .map_err(|e| CompileError::Parse(format!("{e}")))?;
    let info = Validator::new(ValidationFlags::empty(), Capabilities::empty()).validate(&module)
        .map_err(|e| CompileError::Validate(format!("{e}")))?;
    let flags = WriterFlags::ADJUST_COORDINATE_SPACE | WriterFlags::LABEL_VARYINGS
        | WriterFlags::CLAMP_FRAG_DEPTH;
    spv::write_vec(&module, &info, &spv::Options { flags, ..Default::default() },
        Some(&PipelineOptions { shader_stage: stage, entry_point: "main".into() }))
        .map_err(|e| CompileError::Lower(format!("{e}")))
}

/// Builder of per-stage shader variants: a quality preset together with the
/// shared antialiasing algorithm source (an opaque GLSL asset supplied by
/// the caller).
pub struct ShaderSource<'a> {
    /// Quality preset baked into every variant this builder assembles.
    pub quality: ShaderQuality,
    /// The shared algorithm source the entry-point bodies call into.
    pub algorithm: &'a str,
}

impl<'a> ShaderSource<'a> {
    /// Assembles the source text of one stage variant.
    pub fn get_stage(&self, stage: ShaderStage) -> (r: String)
        ensures
            r@ == assembled_source(self.quality, stage, self.algorithm@),
    {
        let mut s: String = String::from_str(
            "#version 450 core
#extension GL_EXT_samplerless_texture_functions: require
#define SMAA_GLSL_4
#define SMAA_PRESET_",
        );
        s.append(self.quality.as_str());
        s.append("\n#define SMAA_INCLUDE_");
        if stage.is_vertex_shader() {
            s.append("PS");
        } else {
            s.append("VS");
        }
        s.append(
            " 0
#define SMAA_RT_METRICS uniforms.rt
layout(set = 0, binding = 0) uniform sampler linearSampler;
layout(set = 0, binding = 1) uniform UniformBlock {
    vec4 rt;
} uniforms;
",
        );
        s.append(self.algorithm);
        s.append("\n");
        s.append(stage.as_str());
        proof {
            assert(s@ =~= assembled_source(self.quality, stage, self.algorithm@));
        }
        s
    }

    /// Assembles the source of one stage variant and compiles it to
    /// SPIR-V through the IR compiler: succeeds exactly when the compiler
    /// accepts the assembled text, and then returns exactly its lowering;
    /// every rejection is reported as the matching [`CompileError`]
    /// variant.
    pub fn compile_spirv(&self, stage: ShaderStage) -> (r: Result<Vec<u32>, CompileError>)
        ensures
            r is Ok <==> compile_ok(
                assembled_source(self.quality, stage, self.algorithm@),
                stage_is_vertex(stage),
            ),
            r matches Ok(words) ==> words@ == spirv_of(
                assembled_source(self.quality, stage, self.algorithm@),
                stage_is_vertex(stage),
            ),
    {
        let source = self.get_stage(stage);
        compile_glsl(source.as_str(), stage.is_vertex_shader())
    }

    /// Compiles one stage variant and wraps it as a shader module of the
    /// device, labelled `name`: succeeds exactly when the compiler
    /// accepts the assembled text of that variant.
    pub fn get_shader(&self, device: &wgpu::Device, stage: ShaderStage, name: &str) -> (r: Result<
        wgpu::ShaderModule,
        CompileError,
    >)
        ensures
            r is Ok <==> compile_ok(
                assembled_source(self.quality, stage, self.algorithm@),
                stage_is_vertex(stage),
            ),
    {
        let words = self.compile_spirv(stage)?;
        Ok(crate::backend::create_shader_module(device, name, words))
    }
}

} // verus!
