//! Error taxonomy of the rendering core. Construction-time failures are
//! fatal for the instance being built; per-frame failures are classified as
//! transient (the swapchain-dependent resources are rebuilt) or fatal (the
//! caller aborts or rebuilds from scratch). No error is retried silently.

use vstd::prelude::*;

verus! {

/// Why a swapchain could not be configured from the surface's capabilities.
#[derive(Clone, Copy, Debug, PartialEq, Eq, Structural)]
pub enum SwapchainError {
    /// The surface reported no usable present mode.
    NoPresentMode,
    /// The surface reported no usable composite-alpha mode.
    NoCompositeAlpha,
    /// The surface gave a preferred-format list with no entries.
    EmptyFormatList,
    /// The surface cannot back a color attachment.
    NoColorAttachmentSupport,
}

/// A construction-time failure. No partial instance is returned: the
/// resources created before the failing step are released, and the caller
/// decides between rebuilding and aborting.
#[derive(Clone, Copy, Debug, PartialEq, Eq, Structural)]
pub enum SetupError {
    /// No adapter exposes a queue family with graphics and presentation.
    NoSuitableAdapter,
    /// The logical device could not be opened on the chosen family.
    DeviceCreationFailed,
    /// The swapchain configuration was rejected; the reason is attached.
    SwapchainCreation(SwapchainError),
    /// An image view or framebuffer of the target set could not be made.
    RenderTargetCreation,
    /// No memory type matches an allocation's mask and visibility.
    NoCompatibleMemoryType,
    /// A shader source did not compile to a binary module.
    ShaderCompilation,
    /// The graphics pipeline could not be linked.
    PipelineCreation,
}

/// The step of the per-frame protocol at which a driver call failed.
#[derive(Clone, Copy, Debug, PartialEq, Eq, Structural)]
pub enum FrameStage {
    /// Acquiring the next swapchain image.
    Acquire,
    /// Presenting the rendered image.
    Present,
}

/// What the driver reported when a frame step failed.
#[derive(Clone, Copy, Debug, PartialEq, Eq, Structural)]
pub enum FrameErrorCause {
    /// The swapchain no longer matches the surface (typically a resize).
    OutOfDate,
    /// The surface itself is gone or unusable.
    SurfaceLost,
    /// Any other acquire or present failure.
    Other,
}

/// A failure of one rendered frame, surfaced to the caller's loop.
#[derive(Clone, Copy, Debug, PartialEq, Eq, Structural)]
pub struct FrameError {
    pub stage: FrameStage,
    pub cause: FrameErrorCause,
}

/// How the caller's loop must react to a frame error.
#[derive(Clone, Copy, Debug, PartialEq, Eq, Structural)]
pub enum Recovery {
    /// Tear down and recreate the swapchain-dependent resources, keeping
    /// the device and instance, then resume the frame loop.
    RebuildSwapchain,
    /// Surface the error: the caller rebuilds everything or aborts.
    Fatal,
}

/// A frame error is transient exactly when the driver reported the
/// swapchain out of date or the surface lost; everything else is fatal.
pub open spec fn spec_recovery_for(e: FrameError) -> Recovery {
    match e.cause {
        FrameErrorCause::OutOfDate => Recovery::RebuildSwapchain,
        FrameErrorCause::SurfaceLost => Recovery::RebuildSwapchain,
        FrameErrorCause::Other => Recovery::Fatal,
    }
}

/// Classify a frame error: rebuild on an out-of-date swapchain or a lost
/// surface, whichever step reported it; fail otherwise.
pub fn recovery_for(e: &FrameError) -> (r: Recovery)
    ensures
        r == spec_recovery_for(*e),
{
    match e.cause {
        FrameErrorCause::OutOfDate => Recovery::RebuildSwapchain,
        FrameErrorCause::SurfaceLost => Recovery::RebuildSwapchain,
        FrameErrorCause::Other => Recovery::Fatal,
    }
}

} // verus!
