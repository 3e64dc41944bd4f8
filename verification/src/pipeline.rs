//! The pipeline builder's decisions: the descriptor pool is sized to
//! exactly the layout's binding counts for one set, and the build runs in
//! a fixed order — descriptor-set layout, pool, set, pipeline layout,
//! graphics pipeline — with the shader modules destroyed right after the
//! pipeline is linked, since they are not needed after linking.

use vstd::prelude::*;

verus! {

/// The descriptor kinds the renderer binds.
#[derive(Clone, Copy, Debug, PartialEq, Eq, Structural)]
pub enum DescriptorKind {
    /// A texture sampled by the fragment shader.
    SampledImage,
    /// The sampler the texture is read through.
    Sampler,
    /// A buffer of shader-visible constants.
    UniformBuffer,
}

/// One binding of the descriptor-set layout.
#[derive(Clone, Copy, Debug, PartialEq, Eq, Structural)]
pub struct DescriptorBindingDesc {
    pub binding: u32,
    pub kind: DescriptorKind,
    pub count: u32,
}

/// One range of the descriptor pool: how many descriptors of one kind
/// the pool can hand out in total.
#[derive(Clone, Copy, Debug, PartialEq, Eq, Structural)]
pub struct DescriptorRangeDesc {
    pub kind: DescriptorKind,
    pub count: u32,
}

/// The resolved descriptor pool: one set, and one range per layout
/// binding with exactly that binding's count.
#[derive(Clone, Debug)]
pub struct DescriptorPoolPlan {
    pub max_sets: u32,
    pub ranges: Vec<DescriptorRangeDesc>,
}

/// Size the descriptor pool to the layout: one allocatable set, and for
/// each binding a range of the same kind and count — never more, so the
/// pool cannot outlive its layout's needs, and never less, so the one
/// set is always allocatable.
pub fn descriptor_pool_plan(bindings: &Vec<DescriptorBindingDesc>) -> (plan: DescriptorPoolPlan)
    ensures
        plan.max_sets == 1,
        plan.ranges@.len() == bindings@.len(),
        forall|i: int|
            0 <= i < bindings@.len() ==> #[trigger] plan.ranges@[i] == (DescriptorRangeDesc {
                kind: bindings@[i].kind,
                count: bindings@[i].count,
            }),
{
    let mut ranges: Vec<DescriptorRangeDesc> = Vec::new();
    let n = bindings.len();
    let mut i: usize = 0;
    while i < n
        invariant
            n == bindings@.len(),
            i <= n,
            ranges@.len() == i,
            forall|j: int|
                0 <= j < i ==> #[trigger] ranges@[j] == (DescriptorRangeDesc {
                    kind: bindings@[j].kind,
                    count: bindings@[j].count,
                }),
        decreases n - i,
    {
        let b = bindings[i];
        ranges.push(DescriptorRangeDesc { kind: b.kind, count: b.count });
        i = i + 1;
    }
    DescriptorPoolPlan { max_sets: 1, ranges }
}

/// One step of building a graphics pipeline.
#[derive(Clone, Copy, Debug, PartialEq, Eq, Structural)]
pub enum PipelineStep {
    /// Compile the vertex shader source to a binary module.
    CreateVertexModule,
    /// Compile the fragment shader source to a binary module.
    CreateFragmentModule,
    /// Create the descriptor-set layout.
    CreateDescriptorSetLayout,
    /// Create the descriptor pool, sized by `descriptor_pool_plan`.
    CreateDescriptorPool,
    /// Allocate the one descriptor set from the pool.
    AllocateDescriptorSet,
    /// Create the pipeline layout over the descriptor layouts and the
    /// push-constant ranges.
    CreatePipelineLayout,
    /// Link the graphics pipeline against the render pass.
    CreateGraphicsPipeline,
    /// Destroy the vertex shader module: not needed after linking.
    DestroyVertexModule,
    /// Destroy the fragment shader module: not needed after linking.
    DestroyFragmentModule,
}

/// The fixed build order of a graphics pipeline, with or without a
/// fragment stage. The shader modules go down immediately after the
/// pipeline is created, and only then; everything else the build
/// creates stays alive and is torn down by the teardown sequencer.
pub fn pipeline_build_schedule(with_fragment: bool) -> (steps: Vec<PipelineStep>)
    ensures
        with_fragment ==> steps@ =~= seq![
            PipelineStep::CreateVertexModule,
            PipelineStep::CreateFragmentModule,
            PipelineStep::CreateDescriptorSetLayout,
            PipelineStep::CreateDescriptorPool,
            PipelineStep::AllocateDescriptorSet,
            PipelineStep::CreatePipelineLayout,
            PipelineStep::CreateGraphicsPipeline,
            PipelineStep::DestroyVertexModule,
            PipelineStep::DestroyFragmentModule,
        ],
        !with_fragment ==> steps@ =~= seq![
            PipelineStep::CreateVertexModule,
            PipelineStep::CreateDescriptorSetLayout,
            PipelineStep::CreateDescriptorPool,
            PipelineStep::AllocateDescriptorSet,
            PipelineStep::CreatePipelineLayout,
            PipelineStep::CreateGraphicsPipeline,
            PipelineStep::DestroyVertexModule,
        ],
{
    let mut steps: Vec<PipelineStep> = Vec::new();
    steps.push(PipelineStep::CreateVertexModule);
    if with_fragment {
        steps.push(PipelineStep::CreateFragmentModule);
    }
    steps.push(PipelineStep::CreateDescriptorSetLayout);
    steps.push(PipelineStep::CreateDescriptorPool);
    steps.push(PipelineStep::AllocateDescriptorSet);
    steps.push(PipelineStep::CreatePipelineLayout);
    steps.push(PipelineStep::CreateGraphicsPipeline);
    steps.push(PipelineStep::DestroyVertexModule);
    if with_fragment {
        steps.push(PipelineStep::DestroyFragmentModule);
    }
    steps
}

} // verus!
