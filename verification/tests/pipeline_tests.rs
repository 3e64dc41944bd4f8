use frame_engine::pipeline::{
    descriptor_pool_plan, pipeline_build_schedule, DescriptorBindingDesc, DescriptorKind,
    DescriptorRangeDesc, PipelineStep,
};

#[test]
fn pool_is_sized_exactly_to_the_layout() {
    // The textured quad binds one sampled image and one sampler.
    let bindings = vec![
        DescriptorBindingDesc { binding: 0, kind: DescriptorKind::SampledImage, count: 1 },
        DescriptorBindingDesc { binding: 1, kind: DescriptorKind::Sampler, count: 1 },
    ];
    let plan = descriptor_pool_plan(&bindings);
    assert_eq!(plan.max_sets, 1);
    assert_eq!(
        plan.ranges,
        vec![
            DescriptorRangeDesc { kind: DescriptorKind::SampledImage, count: 1 },
            DescriptorRangeDesc { kind: DescriptorKind::Sampler, count: 1 },
        ]
    );
}

#[test]
fn empty_layout_gives_an_empty_pool() {
    let plan = descriptor_pool_plan(&vec![]);
    assert_eq!(plan.max_sets, 1);
    assert!(plan.ranges.is_empty());
}

#[test]
fn shader_modules_die_right_after_the_pipeline_is_linked() {
    let steps = pipeline_build_schedule(true);
    let pipeline_at = steps
        .iter()
        .position(|s| *s == PipelineStep::CreateGraphicsPipeline)
        .unwrap();
    let destroy_vertex_at = steps
        .iter()
        .position(|s| *s == PipelineStep::DestroyVertexModule)
        .unwrap();
    let destroy_fragment_at = steps
        .iter()
        .position(|s| *s == PipelineStep::DestroyFragmentModule)
        .unwrap();
    assert_eq!(pipeline_at + 1, destroy_vertex_at);
    assert_eq!(pipeline_at + 2, destroy_fragment_at);
    assert_eq!(steps.len(), 9);
}

#[test]
fn vertex_only_pipeline_skips_the_fragment_stage() {
    let steps = pipeline_build_schedule(false);
    assert_eq!(
        steps,
        vec![
            PipelineStep::CreateVertexModule,
            PipelineStep::CreateDescriptorSetLayout,
            PipelineStep::CreateDescriptorPool,
            PipelineStep::AllocateDescriptorSet,
            PipelineStep::CreatePipelineLayout,
            PipelineStep::CreateGraphicsPipeline,
            PipelineStep::DestroyVertexModule,
        ]
    );
}
