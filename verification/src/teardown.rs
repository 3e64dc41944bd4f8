//! The teardown sequencer: dependency-ordered release of every GPU object
//! on shutdown or swapchain invalidation. Destruction order is the reverse
//! of a strict dependency chain, and destroying a resource while another
//! still-alive resource depends on it is undefined behavior at the driver
//! level — the one crash class this module rules out by construction.
//! Resources are registered in creation order; the sequencer emits a
//! device-idle wait and then every registered resource, ordered by
//! dependency stage and, within a stage, in reverse creation order.

use vstd::prelude::*;

verus! {

/// The kinds of GPU object the renderer owns, each at a fixed stage of
/// the destruction order.
#[derive(Clone, Copy, Debug, PartialEq, Eq, Structural)]
pub enum ResourceKind {
    /// A per-image depth image with its view.
    DepthImage,
    DescriptorSetLayout,
    Fence,
    RenderFinishedSemaphore,
    ImageAvailableSemaphore,
    Framebuffer,
    /// A swapchain image's color view.
    ImageView,
    /// A user-owned buffer (vertex, index or staging store).
    Buffer,
    /// A user-owned sampled image (texture).
    Image,
    Sampler,
    /// Destroying it implicitly frees its descriptor sets.
    DescriptorPool,
    PipelineLayout,
    GraphicsPipeline,
    /// Destroying it implicitly frees its command buffers.
    CommandPool,
    RenderPass,
    Swapchain,
    Device,
    Surface,
    Instance,
}

/// The last destruction stage (the instance goes down last of all).
pub const MAX_DESTROY_STAGE: u32 = 17;

/// The destruction stage of each kind: a resource must be destroyed
/// before everything it depends on, so a smaller stage goes first.
/// User-owned buffers, images and samplers share one stage.
pub open spec fn destroy_stage(k: ResourceKind) -> int {
    match k {
        ResourceKind::DepthImage => 0,
        ResourceKind::DescriptorSetLayout => 1,
        ResourceKind::Fence => 2,
        ResourceKind::RenderFinishedSemaphore => 3,
        ResourceKind::ImageAvailableSemaphore => 4,
        ResourceKind::Framebuffer => 5,
        ResourceKind::ImageView => 6,
        ResourceKind::Buffer => 7,
        ResourceKind::Image => 7,
        ResourceKind::Sampler => 7,
        ResourceKind::DescriptorPool => 8,
        ResourceKind::PipelineLayout => 9,
        ResourceKind::GraphicsPipeline => 10,
        ResourceKind::CommandPool => 11,
        ResourceKind::RenderPass => 12,
        ResourceKind::Swapchain => 13,
        ResourceKind::Device => 14,
        ResourceKind::Surface => 15,
        ResourceKind::Instance => 16,
    }
}

/// The destruction stage, as executable code.
pub fn resource_stage(k: ResourceKind) -> (s: u32)
    ensures
        s as int == destroy_stage(k),
{
    match k {
        ResourceKind::DepthImage => 0,
        ResourceKind::DescriptorSetLayout => 1,
        ResourceKind::Fence => 2,
        ResourceKind::RenderFinishedSemaphore => 3,
        ResourceKind::ImageAvailableSemaphore => 4,
        ResourceKind::Framebuffer => 5,
        ResourceKind::ImageView => 6,
        ResourceKind::Buffer => 7,
        ResourceKind::Image => 7,
        ResourceKind::Sampler => 7,
        ResourceKind::DescriptorPool => 8,
        ResourceKind::PipelineLayout => 9,
        ResourceKind::GraphicsPipeline => 10,
        ResourceKind::CommandPool => 11,
        ResourceKind::RenderPass => 12,
        ResourceKind::Swapchain => 13,
        ResourceKind::Device => 14,
        ResourceKind::Surface => 15,
        ResourceKind::Instance => 16,
    }
}

/// One live GPU object: its creation number (the registry hands these
/// out in strictly increasing order) and its kind.
#[derive(Clone, Copy, Debug, PartialEq, Eq, Structural)]
pub struct Resource {
    pub id: u64,
    pub kind: ResourceKind,
}

/// Creation numbers strictly increase along the sequence: the registry's
/// order is the creation order.
pub open spec fn ids_increasing(s: Seq<Resource>) -> bool {
    forall|p: int, q: int| 0 <= p < q < s.len() ==> s[p].id < s[q].id
}

/// `a` may be destroyed before `b`: `a`'s stage comes first, or they
/// share a stage and `a` was created later.
pub open spec fn destroys_before(a: Resource, b: Resource) -> bool {
    ||| destroy_stage(a.kind) < destroy_stage(b.kind)
    ||| (destroy_stage(a.kind) == destroy_stage(b.kind) && a.id > b.id)
}

/// Every pair of the sequence respects the destruction order: no
/// resource is destroyed after something that depends on it, and equal
/// stages run in reverse creation order.
pub open spec fn sorted_for_teardown(s: Seq<Resource>) -> bool {
    forall|p: int, q: int|
        0 <= p < q < s.len() ==> destroys_before(#[trigger] s[p], #[trigger] s[q])
}

/// Order the live resources for destruction: by stage, and within a
/// stage in reverse creation order. Every live resource appears in the
/// result, everything in the result is a live resource, nothing appears
/// twice, and every pair respects the destruction order — for any mix of
/// optional resources (a depth buffer present or absent, any number of
/// user buffers).
pub fn teardown_order(live: &Vec<Resource>) -> (out: Vec<Resource>)
    requires
        ids_increasing(live@),
    ensures
        forall|j: int| 0 <= j < live@.len() ==> out@.contains(#[trigger] live@[j]),
        forall|j: int| 0 <= j < out@.len() ==> live@.contains(#[trigger] out@[j]),
        sorted_for_teardown(out@),
        forall|p: int, q: int| 0 <= p < q < out@.len() ==> out@[p].id != out@[q].id,
{
    let mut out: Vec<Resource> = Vec::new();
    let mut stage: u32 = 0;
    while stage < MAX_DESTROY_STAGE
        invariant
            ids_increasing(live@),
            stage <= MAX_DESTROY_STAGE,
            sorted_for_teardown(out@),
            forall|j: int|
                0 <= j < out@.len() ==> live@.contains(#[trigger] out@[j]) && destroy_stage(
                    out@[j].kind,
                ) < stage,
            forall|j: int|
                0 <= j < live@.len() && destroy_stage((#[trigger] live@[j]).kind) < stage
                    ==> out@.contains(live@[j]),
        decreases MAX_DESTROY_STAGE - stage,
    {
        let mut i: usize = live.len();
        while i > 0
            invariant
                ids_increasing(live@),
                stage < MAX_DESTROY_STAGE,
                i <= live@.len(),
                sorted_for_teardown(out@),
                forall|j: int|
                    0 <= j < out@.len() ==> live@.contains(#[trigger] out@[j]) && destroy_stage(
                        out@[j].kind,
                    ) <= stage,
                forall|j: int, k: int|
                    0 <= j < out@.len() && destroy_stage((#[trigger] out@[j]).kind) == stage && 0
                        <= k < i ==> out@[j].id > (#[trigger] live@[k]).id,
                forall|j: int|
                    0 <= j < live@.len() && (destroy_stage((#[trigger] live@[j]).kind) < stage || (
                    destroy_stage(live@[j].kind) == stage && j >= i)) ==> out@.contains(live@[j]),
            decreases i,
        {
            i = i - 1;
            let x = live[i];
            if resource_stage(x.kind) == stage {
                proof {
                    assert forall|j: int| 0 <= j < out@.len() implies destroys_before(
                        out@[j],
                        x,
                    ) by {
                        if destroy_stage(out@[j].kind) == destroy_stage(x.kind) {
                            assert(out@[j].id > live@[i as int].id);
                        }
                    }
                    assert(live@.contains(live@[i as int]));
                }
                let ghost prior = out@;
                out.push(x);
                proof {
                    assert forall|y: Resource| prior.contains(y) implies out@.contains(y) by {
                        let w = choose|w: int| 0 <= w < prior.len() && prior[w] == y;
                        assert(out@[w] == y);
                    }
                    assert(out@[out@.len() - 1] == live@[i as int]);
                    assert(out@.contains(live@[i as int]));
                }
            }
        }
        stage = stage + 1;
    }
    proof {
        assert forall|j: int|
            0 <= j < live@.len() implies destroy_stage((#[trigger] live@[j]).kind)
            < MAX_DESTROY_STAGE by {
            lemma_stage_bounds(live@[j].kind);
        }
        lemma_sorted_ids_distinct(live@, out@);
    }
    out
}

/// Every kind's stage lies within the stage range.
pub proof fn lemma_stage_bounds(k: ResourceKind)
    ensures
        0 <= destroy_stage(k) < MAX_DESTROY_STAGE,
{
}

/// In a teardown-sorted sequence drawn from a registry (strictly
/// increasing creation numbers), no creation number repeats: nothing is
/// destroyed twice.
proof fn lemma_sorted_ids_distinct(live: Seq<Resource>, out: Seq<Resource>)
    requires
        ids_increasing(live),
        sorted_for_teardown(out),
        forall|j: int| 0 <= j < out.len() ==> live.contains(#[trigger] out[j]),
    ensures
        forall|p: int, q: int| 0 <= p < q < out.len() ==> out[p].id != out[q].id,
{
    assert forall|p: int, q: int| 0 <= p < q < out.len() implies out[p].id != out[q].id by {
        if out[p].id == out[q].id {
            let k = choose|k: int| 0 <= k < live.len() && live[k] == out[p];
            let l = choose|l: int| 0 <= l < live.len() && live[l] == out[q];
            if k < l {
                assert(live[k].id < live[l].id);
            } else if l < k {
                assert(live[l].id < live[k].id);
            }
            assert(out[p] == out[q]);
            assert(destroys_before(out[p], out[q]));
        }
    }
}

/// In a teardown-sorted sequence, every dependency edge is respected:
/// whenever one resource's stage precedes another's — the first depends
/// on the second, as a framebuffer depends on its render pass — the
/// first stands strictly earlier in the destruction order.
pub proof fn lemma_lower_stage_goes_first(s: Seq<Resource>, p: int, q: int)
    requires
        sorted_for_teardown(s),
        0 <= p < s.len(),
        0 <= q < s.len(),
        destroy_stage(s[p].kind) < destroy_stage(s[q].kind),
    ensures
        p < q,
{
    if q < p {
        assert(destroys_before(s[q], s[p]));
    }
}

/// One step of the teardown schedule.
#[derive(Clone, Copy, Debug, PartialEq, Eq, Structural)]
pub enum TeardownStep {
    /// Block until every queued GPU operation has drained. Only after
    /// this is it safe to destroy anything.
    WaitDeviceIdle,
    /// Destroy one resource.
    Destroy(Resource),
}

/// The resource a destroy step releases.
pub open spec fn step_resource(s: TeardownStep) -> Resource
    recommends
        s is Destroy,
{
    s->0
}

/// The full shutdown script: first wait for the device to go idle, then
/// destroy every live resource in dependency order. The destroy tail
/// carries exactly the guarantees of `teardown_order`.
pub fn teardown_schedule(live: &Vec<Resource>) -> (steps: Vec<TeardownStep>)
    requires
        ids_increasing(live@),
    ensures
        steps@.len() >= 1,
        steps@[0] == TeardownStep::WaitDeviceIdle,
        forall|j: int| 1 <= j < steps@.len() ==> steps@[j] is Destroy,
        forall|j: int|
            0 <= j < live@.len() ==> exists|p: int|
                1 <= p < steps@.len() && step_resource(#[trigger] steps@[p]) == #[trigger] live@[j],
        forall|p: int|
            1 <= p < steps@.len() ==> live@.contains(step_resource(#[trigger] steps@[p])),
        forall|p: int, q: int|
            1 <= p < q < steps@.len() ==> destroys_before(
                step_resource(#[trigger] steps@[p]),
                step_resource(#[trigger] steps@[q]),
            ),
        forall|p: int, q: int|
            1 <= p < q < steps@.len() ==> step_resource(#[trigger] steps@[p]).id
                != step_resource(#[trigger] steps@[q]).id,
{
    let order = teardown_order(live);
    let mut steps: Vec<TeardownStep> = Vec::new();
    steps.push(TeardownStep::WaitDeviceIdle);
    let n = order.len();
    let mut k: usize = 0;
    while k < n
        invariant
            n == order@.len(),
            k <= n,
            steps@.len() == k + 1,
            steps@[0] == TeardownStep::WaitDeviceIdle,
            forall|j: int|
                1 <= j < steps@.len() ==> #[trigger] steps@[j] == TeardownStep::Destroy(
                    order@[j - 1],
                ),
        decreases n - k,
    {
        steps.push(TeardownStep::Destroy(order[k]));
        k = k + 1;
    }
    proof {
        assert forall|j: int| 0 <= j < live@.len() implies exists|p: int|
            1 <= p < steps@.len() && step_resource(#[trigger] steps@[p]) == #[trigger] live@[j] by {
            assert(order@.contains(live@[j]));
            let m = choose|m: int| 0 <= m < order@.len() && order@[m] == live@[j];
            assert(steps@[m + 1] == TeardownStep::Destroy(order@[m]));
            assert(step_resource(steps@[m + 1]) == live@[j]);
        }
    }
    steps
}

/// The renderer's resource registry: every GPU object is entered here as
/// it is created, so that shutdown — or the release of a half-built
/// instance after a construction failure — can walk the live set in
/// dependency order. Creation numbers strictly increase.
pub struct ResourceRegistry {
    /// The live resources, in creation order.
    pub items: Vec<Resource>,
    /// The next creation number to hand out.
    pub next_id: u64,
}

impl ResourceRegistry {
    /// The registry's invariant: entries carry strictly increasing
    /// creation numbers, all below the next number to hand out.
    pub open spec fn wf(self) -> bool {
        &&& ids_increasing(self.items@)
        &&& forall|j: int| 0 <= j < self.items@.len() ==> (#[trigger] self.items@[j]).id
            < self.next_id
    }

    /// An empty registry.
    pub fn new() -> (r: ResourceRegistry)
        ensures
            r.wf(),
            r.items@.len() == 0,
            r.next_id == 0,
    {
        ResourceRegistry { items: Vec::new(), next_id: 0 }
    }

    /// Enter a newly created resource; returns its creation number.
    pub fn register(&mut self, kind: ResourceKind) -> (id: u64)
        requires
            old(self).wf(),
            old(self).next_id < u64::MAX,
        ensures
            final(self).wf(),
            id == old(self).next_id,
            final(self).items@ == old(self).items@.push(Resource { id, kind }),
            final(self).next_id == old(self).next_id + 1,
    {
        let id = self.next_id;
        self.items.push(Resource { id, kind });
        self.next_id = self.next_id + 1;
        id
    }

    /// The shutdown script for everything currently live: an idle wait,
    /// then each entry in dependency order. Used both at orderly
    /// shutdown and to release the partial set after a construction
    /// failure, so that no half-built instance leaks.
    pub fn shutdown_schedule(&self) -> (steps: Vec<TeardownStep>)
        requires
            self.wf(),
        ensures
            steps@.len() >= 1,
            steps@[0] == TeardownStep::WaitDeviceIdle,
            forall|j: int| 1 <= j < steps@.len() ==> steps@[j] is Destroy,
            forall|j: int|
                0 <= j < self.items@.len() ==> exists|p: int|
                    1 <= p < steps@.len() && step_resource(#[trigger] steps@[p])
                        == #[trigger] self.items@[j],
            forall|p: int|
                1 <= p < steps@.len() ==> self.items@.contains(
                    step_resource(#[trigger] steps@[p]),
                ),
            forall|p: int, q: int|
                1 <= p < q < steps@.len() ==> destroys_before(
                    step_resource(#[trigger] steps@[p]),
                    step_resource(#[trigger] steps@[q]),
                ),
            forall|p: int, q: int|
                1 <= p < q < steps@.len() ==> step_resource(#[trigger] steps@[p]).id
                    != step_resource(#[trigger] steps@[q]).id,
    {
        teardown_schedule(&self.items)
    }
}

} // verus!
