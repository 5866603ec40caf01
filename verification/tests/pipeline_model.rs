use smaa::{
    blend_weight_binding_assignments, blend_weight_layout_slots, edge_detect_binding_assignments,
    edge_detect_layout_slots, neighborhood_blending_binding_assignments,
    neighborhood_blending_layout_slots, pass_stages, resolve_pass_plan, AttachmentRole,
    BindingAssignment, BindingKind, LayoutSlot, PassKind, ResourceRole, ShaderStage, SmaaAssets,
    SmaaMode, ToneMapping, AREATEX_SIZE, SEARCHTEX_SIZE,
};

#[test]
fn resolve_plan_is_three_passes_in_fixed_order() {
    let plan = resolve_pass_plan();
    assert_eq!(plan.len(), 3);
    assert_eq!(plan[0].kind, PassKind::EdgeDetect);
    assert_eq!(plan[0].output, AttachmentRole::EdgesTarget);
    assert_eq!(plan[1].kind, PassKind::BlendWeight);
    assert_eq!(plan[1].output, AttachmentRole::BlendTarget);
    assert_eq!(plan[2].kind, PassKind::NeighborhoodBlend);
    assert_eq!(plan[2].output, AttachmentRole::FrameOutput);
    for pass in &plan {
        assert!(pass.clear_to_black);
        assert_eq!(pass.vertex_count, 3);
        assert_eq!(pass.instance_count, 1);
    }
}

#[test]
fn consecutive_plans_are_structurally_identical() {
    // Two frames with no resize between them submit the same passes.
    assert_eq!(resolve_pass_plan(), resolve_pass_plan());
}

#[test]
fn pass_stage_wiring() {
    let tone = ToneMapping::Disabled;
    assert_eq!(
        pass_stages(PassKind::EdgeDetect, tone),
        (ShaderStage::EdgeDetectionVS, ShaderStage::LumaEdgeDetectionPS)
    );
    assert_eq!(
        pass_stages(PassKind::BlendWeight, tone),
        (ShaderStage::BlendingWeightVS, ShaderStage::BlendingWeightPS)
    );
    assert_eq!(
        pass_stages(PassKind::NeighborhoodBlend, tone),
        (ShaderStage::NeighborhoodBlendingVS, ShaderStage::NeighborhoodBlendingPS)
    );
    assert_eq!(
        pass_stages(PassKind::NeighborhoodBlend, ToneMapping::AcesNormalized),
        (
            ShaderStage::NeighborhoodBlendingVS,
            ShaderStage::NeighborhoodBlendingAcesTonemapPS
        )
    );
}

fn kind_of(role: ResourceRole) -> BindingKind {
    match role {
        ResourceRole::LinearSampler => BindingKind::FilteringSampler,
        ResourceRole::RtUniforms => BindingKind::UniformBuffer,
        _ => BindingKind::SampledTexture,
    }
}

fn assert_bindings_fill_layout(bindings: &[BindingAssignment], layout: &[LayoutSlot]) {
    assert_eq!(bindings.len(), layout.len());
    for (b, l) in bindings.iter().zip(layout.iter()) {
        assert_eq!(b.binding, l.binding);
        assert_eq!(kind_of(b.resource), l.kind);
    }
}

#[test]
fn edge_detect_bindings_and_layout() {
    let layout = edge_detect_layout_slots();
    let bindings = edge_detect_binding_assignments();
    assert_eq!(
        layout.iter().map(|s| s.binding).collect::<Vec<_>>(),
        vec![0, 1, 2]
    );
    assert_eq!(bindings[2].resource, ResourceRole::ColorTarget);
    assert_bindings_fill_layout(&bindings, &layout);
}

#[test]
fn blend_weight_bindings_and_layout() {
    let layout = blend_weight_layout_slots();
    let bindings = blend_weight_binding_assignments();
    assert_eq!(
        layout.iter().map(|s| s.binding).collect::<Vec<_>>(),
        vec![0, 1, 2, 3, 4]
    );
    assert_eq!(bindings[2].resource, ResourceRole::EdgesTarget);
    assert_eq!(bindings[3].resource, ResourceRole::AreaLookup);
    assert_eq!(bindings[4].resource, ResourceRole::SearchLookup);
    assert_bindings_fill_layout(&bindings, &layout);
}

#[test]
fn neighborhood_blending_bindings_and_layout() {
    let layout = neighborhood_blending_layout_slots();
    let bindings = neighborhood_blending_binding_assignments();
    assert_eq!(
        layout.iter().map(|s| s.binding).collect::<Vec<_>>(),
        vec![0, 1, 2, 3]
    );
    assert_eq!(bindings[2].resource, ResourceRole::ColorTarget);
    assert_eq!(bindings[3].resource, ResourceRole::BlendTarget);
    assert_bindings_fill_layout(&bindings, &layout);
}

#[test]
fn every_pass_binds_sampler_then_uniforms_first() {
    for bindings in [
        edge_detect_binding_assignments(),
        blend_weight_binding_assignments(),
        neighborhood_blending_binding_assignments(),
    ] {
        assert_eq!(bindings[0].binding, 0);
        assert_eq!(bindings[0].resource, ResourceRole::LinearSampler);
        assert_eq!(bindings[1].binding, 1);
        assert_eq!(bindings[1].resource, ResourceRole::RtUniforms);
    }
}

#[test]
fn asset_check_accepts_exact_sizes_only() {
    let area = vec![0u8; AREATEX_SIZE];
    let search = vec![0u8; SEARCHTEX_SIZE];
    let good = SmaaAssets {
        algorithm_source: "",
        area_lookup: &area,
        search_lookup: &search,
    };
    assert!(good.check());
    let short_area = vec![0u8; AREATEX_SIZE - 1];
    let bad = SmaaAssets {
        algorithm_source: "",
        area_lookup: &short_area,
        search_lookup: &search,
    };
    assert!(!bad.check());
    let long_search = vec![0u8; SEARCHTEX_SIZE + 1];
    let bad2 = SmaaAssets {
        algorithm_source: "",
        area_lookup: &area,
        search_lookup: &long_search,
    };
    assert!(!bad2.check());
}

#[test]
fn mode_equality() {
    assert_eq!(SmaaMode::Disabled, SmaaMode::Disabled);
    assert_ne!(SmaaMode::Disabled, SmaaMode::Smaa1X);
}
