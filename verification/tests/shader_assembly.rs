use smaa::{CompileError, ShaderQuality, ShaderSource, ShaderStage};

#[test]
fn quality_tokens() {
    assert_eq!(ShaderQuality::Low.as_str(), "LOW");
    assert_eq!(ShaderQuality::Medium.as_str(), "MEDIUM");
    assert_eq!(ShaderQuality::High.as_str(), "HIGH");
    assert_eq!(ShaderQuality::Ultra.as_str(), "ULTRA");
}

#[test]
fn stage_kinds() {
    assert!(ShaderStage::EdgeDetectionVS.is_vertex_shader());
    assert!(ShaderStage::BlendingWeightVS.is_vertex_shader());
    assert!(ShaderStage::NeighborhoodBlendingVS.is_vertex_shader());
    assert!(!ShaderStage::LumaEdgeDetectionPS.is_vertex_shader());
    assert!(!ShaderStage::BlendingWeightPS.is_vertex_shader());
    assert!(!ShaderStage::NeighborhoodBlendingPS.is_vertex_shader());
    assert!(!ShaderStage::NeighborhoodBlendingAcesTonemapPS.is_vertex_shader());
}

#[test]
fn stage_bodies_call_their_stage_function() {
    assert!(ShaderStage::EdgeDetectionVS.as_str().contains("SMAAEdgeDetectionVS("));
    assert!(ShaderStage::LumaEdgeDetectionPS.as_str().contains("SMAALumaEdgeDetectionPS("));
    assert!(
        ShaderStage::BlendingWeightVS.as_str().contains("SMAABlendingWeightCalculationVS(")
    );
    assert!(
        ShaderStage::BlendingWeightPS.as_str().contains("SMAABlendingWeightCalculationPS(")
    );
    assert!(
        ShaderStage::NeighborhoodBlendingVS.as_str().contains("SMAANeighborhoodBlendingVS(")
    );
    assert!(
        ShaderStage::NeighborhoodBlendingPS.as_str().contains("SMAANeighborhoodBlendingPS(")
    );
    assert!(
        ShaderStage::NeighborhoodBlendingAcesTonemapPS
            .as_str()
            .contains("SMAANeighborhoodBlendingPS(")
    );
    // The tone-mapped variant additionally applies the ACES curve.
    assert!(ShaderStage::NeighborhoodBlendingAcesTonemapPS.as_str().contains("clamp("));
}

#[test]
fn assembled_source_is_exact_concatenation() {
    let source = ShaderSource { quality: ShaderQuality::High, algorithm: "ALGORITHM-BODY" };
    let text = source.get_stage(ShaderStage::EdgeDetectionVS);
    let expected = format!(
        "#version 450 core
#extension GL_EXT_samplerless_texture_functions: require
#define SMAA_GLSL_4
#define SMAA_PRESET_{}
#define SMAA_INCLUDE_{} 0
#define SMAA_RT_METRICS uniforms.rt
layout(set = 0, binding = 0) uniform sampler linearSampler;
layout(set = 0, binding = 1) uniform UniformBlock {{
    vec4 rt;
}} uniforms;
{}
{}",
        "HIGH",
        "PS",
        "ALGORITHM-BODY",
        ShaderStage::EdgeDetectionVS.as_str(),
    );
    assert_eq!(text, expected);
}

#[test]
fn vertex_variants_exclude_fragment_branches_and_vice_versa() {
    let source = ShaderSource { quality: ShaderQuality::Low, algorithm: "X" };
    let vs = source.get_stage(ShaderStage::BlendingWeightVS);
    assert!(vs.contains("#define SMAA_INCLUDE_PS 0"));
    assert!(!vs.contains("#define SMAA_INCLUDE_VS 0"));
    let ps = source.get_stage(ShaderStage::BlendingWeightPS);
    assert!(ps.contains("#define SMAA_INCLUDE_VS 0"));
    assert!(!ps.contains("#define SMAA_INCLUDE_PS 0"));
}

#[test]
fn quality_preset_is_spliced_in() {
    for (quality, token) in [
        (ShaderQuality::Low, "#define SMAA_PRESET_LOW\n"),
        (ShaderQuality::Medium, "#define SMAA_PRESET_MEDIUM\n"),
        (ShaderQuality::High, "#define SMAA_PRESET_HIGH\n"),
        (ShaderQuality::Ultra, "#define SMAA_PRESET_ULTRA\n"),
    ] {
        let source = ShaderSource { quality, algorithm: "X" };
        assert!(source.get_stage(ShaderStage::NeighborhoodBlendingVS).contains(token));
    }
}

// A stand-in for the shared algorithm source: just enough for the
// edge-detection vertex variant to compile.
static VERTEX_STUB: &str = "#define float2 vec2
#define float4 vec4
void SMAAEdgeDetectionVS(float2 texcoord, out float4 offset[3]) {
    offset[0] = vec4(0.0);
    offset[1] = vec4(0.0);
    offset[2] = vec4(0.0);
}
";

#[test]
fn vertex_variant_compiles_to_spirv() {
    let source = ShaderSource { quality: ShaderQuality::High, algorithm: VERTEX_STUB };
    let words = source
        .compile_spirv(ShaderStage::EdgeDetectionVS)
        .expect("the stub variant should compile");
    // A SPIR-V module starts with the magic number.
    assert_eq!(words[0], 0x0723_0203);
    assert!(words.len() > 8);
}

#[test]
fn compiling_the_same_variant_twice_yields_identical_words() {
    let source = ShaderSource { quality: ShaderQuality::High, algorithm: VERTEX_STUB };
    let first = source
        .compile_spirv(ShaderStage::EdgeDetectionVS)
        .expect("the stub variant should compile");
    let second = source
        .compile_spirv(ShaderStage::EdgeDetectionVS)
        .expect("the stub variant should compile");
    assert_eq!(first, second);
}

#[test]
fn compiling_a_different_quality_gives_different_source_but_same_entry() {
    let low = ShaderSource { quality: ShaderQuality::Low, algorithm: VERTEX_STUB };
    let ultra = ShaderSource { quality: ShaderQuality::Ultra, algorithm: VERTEX_STUB };
    assert_ne!(
        low.get_stage(ShaderStage::EdgeDetectionVS),
        ultra.get_stage(ShaderStage::EdgeDetectionVS)
    );
    assert!(low.compile_spirv(ShaderStage::EdgeDetectionVS).is_ok());
    assert!(ultra.compile_spirv(ShaderStage::EdgeDetectionVS).is_ok());
}

#[test]
fn rejected_source_reports_a_parse_error() {
    let source = ShaderSource { quality: ShaderQuality::High, algorithm: "this is not glsl $$$" };
    let result = source.compile_spirv(ShaderStage::EdgeDetectionVS);
    assert!(matches!(result, Err(CompileError::Parse(_))));
}

#[test]
fn missing_stage_function_reports_an_error() {
    // Parses as empty GLSL, but the entry point calls an undefined
    // function, so some phase of the compiler must reject it.
    let source = ShaderSource { quality: ShaderQuality::High, algorithm: "" };
    assert!(source.compile_spirv(ShaderStage::EdgeDetectionVS).is_err());
}
