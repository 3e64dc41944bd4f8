//! The render-target set: per-swapchain-image color views, optional
//! per-image depth images, and one framebuffer per image. This module
//! fixes what must be created, for how many images, and in what order;
//! if any creation step fails the caller abandons the whole set — no
//! partial target set is retained.

use vstd::prelude::*;

verus! {

/// One creation step of the render-target set, naming the swapchain
/// image it belongs to.
#[derive(Clone, Copy, Debug, PartialEq, Eq, Structural)]
pub enum RenderTargetStep {
    /// A 2D color view over swapchain image `image_index`, in the
    /// resolved surface format.
    CreateColorView { image_index: usize },
    /// A depth image with its view for image `image_index`, in a 32-bit
    /// float depth format.
    CreateDepthImage { image_index: usize },
    /// The framebuffer for image `image_index`, attaching its color
    /// view and, when depth is in use, its depth view.
    CreateFramebuffer { image_index: usize, with_depth: bool },
}

/// The creation schedule of a full render-target set over `image_count`
/// swapchain images: every color view, then — when the scene needs depth
/// testing — every depth image, then every framebuffer. Each group
/// covers image indices `0 .. image_count` in order.
pub fn render_target_schedule(image_count: usize, with_depth: bool) -> (steps: Vec<
    RenderTargetStep,
>)
    requires
        image_count >= 1,
        image_count <= usize::MAX / 3,
    ensures
        steps@.len() == if with_depth {
            3 * image_count
        } else {
            2 * image_count
        },
        forall|p: int|
            0 <= p < image_count ==> #[trigger] steps@[p] == (RenderTargetStep::CreateColorView {
                image_index: p as usize,
            }),
        forall|p: int|
            with_depth && image_count <= p < 2 * image_count ==> #[trigger] steps@[p] == (
            RenderTargetStep::CreateDepthImage { image_index: (p - image_count) as usize }),
        forall|p: int|
            steps@.len() - image_count <= p < steps@.len() ==> #[trigger] steps@[p] == (
            RenderTargetStep::CreateFramebuffer {
                image_index: (p - (steps@.len() - image_count)) as usize,
                with_depth,
            }),
{
    let mut steps: Vec<RenderTargetStep> = Vec::new();
    let mut i: usize = 0;
    while i < image_count
        invariant
            i <= image_count,
            steps@.len() == i,
            forall|j: int|
                0 <= j < i ==> #[trigger] steps@[j] == (RenderTargetStep::CreateColorView {
                    image_index: j as usize,
                }),
        decreases image_count - i,
    {
        steps.push(RenderTargetStep::CreateColorView { image_index: i });
        i = i + 1;
    }
    if with_depth {
        let mut i: usize = 0;
        while i < image_count
            invariant
                i <= image_count,
                steps@.len() == image_count + i,
                forall|j: int|
                    0 <= j < image_count ==> #[trigger] steps@[j] == (
                    RenderTargetStep::CreateColorView { image_index: j as usize }),
                forall|p: int|
                    image_count <= p < image_count + i ==> #[trigger] steps@[p] == (
                    RenderTargetStep::CreateDepthImage {
                        image_index: (p - image_count) as usize,
                    }),
            decreases image_count - i,
        {
            steps.push(RenderTargetStep::CreateDepthImage { image_index: i });
            i = i + 1;
        }
    }
    let ghost base: int = if with_depth {
        2 * image_count as int
    } else {
        image_count as int
    };
    let mut i: usize = 0;
    while i < image_count
        invariant
            i <= image_count,
            base == if with_depth {
                2 * image_count as int
            } else {
                image_count as int
            },
            steps@.len() == base + i,
            forall|j: int|
                0 <= j < image_count ==> #[trigger] steps@[j] == (
                RenderTargetStep::CreateColorView { image_index: j as usize }),
            forall|p: int|
                with_depth && image_count <= p < 2 * image_count ==> #[trigger] steps@[p] == (
                RenderTargetStep::CreateDepthImage { image_index: (p - image_count) as usize }),
            forall|p: int|
                base <= p < base + i ==> #[trigger] steps@[p] == (
                RenderTargetStep::CreateFramebuffer {
                    image_index: (p - base) as usize,
                    with_depth,
                }),
        decreases image_count - i,
    {
        steps.push(RenderTargetStep::CreateFramebuffer { image_index: i, with_depth });
        i = i + 1;
    }
    steps
}

} // verus!
