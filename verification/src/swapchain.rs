//! The swapchain configuration policy: given what the surface reports —
//! formats, present modes, composite-alpha modes, extent bounds and image
//! counts — resolve the format, present mode, composite alpha, extent and
//! image count the swapchain is created with. Downstream components depend
//! on these resolved values, never on the request.

use vstd::prelude::*;
use crate::errors::SwapchainError;

verus! {

/// How the presentation engine paces frames.
#[derive(Clone, Copy, Debug, PartialEq, Eq, Structural)]
pub enum PresentMode {
    /// Low-latency triple buffering: the newest pending image wins.
    Mailbox,
    /// Strict vsync queue.
    Fifo,
    /// Vsync that tears instead of waiting when a frame is late.
    Relaxed,
    /// No pacing at all.
    Immediate,
}

/// How the presented image is blended with what is behind the window.
#[derive(Clone, Copy, Debug, PartialEq, Eq, Structural)]
pub enum CompositeAlpha {
    Opaque,
    Inherit,
    PreMultiplied,
    PostMultiplied,
}

/// What the policy needs to know of one surface format: whether its color
/// channels are sRGB-encoded.
#[derive(Clone, Copy, Debug, PartialEq, Eq, Structural)]
pub struct FormatDesc {
    pub srgb: bool,
}

/// The resolved format: either the fallback four-channel sRGB format (used
/// when the surface states no preference), or an entry of the surface's
/// preferred list, by position.
#[derive(Clone, Copy, Debug, PartialEq, Eq, Structural)]
pub enum FormatChoice {
    DefaultRgba8Srgb,
    Preferred(usize),
}

/// A width and height in pixels.
#[derive(Clone, Copy, Debug, PartialEq, Eq, Structural)]
pub struct Extent2D {
    pub width: u32,
    pub height: u32,
}

/// What the surface reports about itself, beyond the format and mode
/// lists: the exclusive upper bound on image count, the extent bounds,
/// and whether it can back a color attachment.
#[derive(Clone, Copy, Debug, PartialEq, Eq, Structural)]
pub struct SurfaceCaps {
    /// One more than the largest image count the surface supports.
    pub max_images: u32,
    pub min_extent: Extent2D,
    pub max_extent: Extent2D,
    pub supports_color_attachment: bool,
}

/// The resolved swapchain configuration.
#[derive(Clone, Copy, Debug, PartialEq, Eq, Structural)]
pub struct SwapchainPlan {
    pub format: FormatChoice,
    pub present_mode: PresentMode,
    pub composite_alpha: CompositeAlpha,
    pub extent: Extent2D,
    pub image_count: u32,
    pub image_layers: u32,
}

/// Preference order of the present modes; a lower rank is chosen first.
pub open spec fn present_mode_rank(m: PresentMode) -> int {
    match m {
        PresentMode::Mailbox => 0,
        PresentMode::Fifo => 1,
        PresentMode::Relaxed => 2,
        PresentMode::Immediate => 3,
    }
}

/// Preference order of the composite-alpha modes; a lower rank is chosen
/// first.
pub open spec fn composite_alpha_rank(a: CompositeAlpha) -> int {
    match a {
        CompositeAlpha::Opaque => 0,
        CompositeAlpha::Inherit => 1,
        CompositeAlpha::PreMultiplied => 2,
        CompositeAlpha::PostMultiplied => 3,
    }
}

/// `m` is offered and nothing offered outranks it.
pub open spec fn is_best_present_mode(available: Seq<PresentMode>, m: PresentMode) -> bool {
    &&& available.contains(m)
    &&& forall|j: int|
        0 <= j < available.len() ==> present_mode_rank(m) <= present_mode_rank(
            #[trigger] available[j],
        )
}

/// `a` is offered and nothing offered outranks it.
pub open spec fn is_best_composite_alpha(available: Seq<CompositeAlpha>, a: CompositeAlpha) -> bool {
    &&& available.contains(a)
    &&& forall|j: int|
        0 <= j < available.len() ==> composite_alpha_rank(a) <= composite_alpha_rank(
            #[trigger] available[j],
        )
}

/// The format rule: no preference list means the fallback format; an
/// empty list is an error upstream; otherwise the first sRGB entry, and
/// failing that the first entry.
pub open spec fn is_right_format_choice(preferred: Option<Seq<FormatDesc>>, c: FormatChoice) -> bool {
    match preferred {
        Option::None => c == FormatChoice::DefaultRgba8Srgb,
        Option::Some(v) => match c {
            FormatChoice::DefaultRgba8Srgb => false,
            FormatChoice::Preferred(i) => {
                &&& 0 <= i < v.len()
                &&& if exists|k: int| 0 <= k < v.len() && (#[trigger] v[k]).srgb {
                    v[i as int].srgb && forall|k: int| 0 <= k < i ==> !(#[trigger] v[k]).srgb
                } else {
                    i == 0
                }
            },
        },
    }
}

/// `v` clamped into `[lo, hi]`.
pub open spec fn spec_clamp(v: u32, lo: u32, hi: u32) -> u32
    recommends
        lo <= hi,
{
    if v < lo {
        lo
    } else if v > hi {
        hi
    } else {
        v
    }
}

/// The image-count rule: one less than the reported exclusive bound,
/// capped at three images under `Mailbox` and at two otherwise.
pub open spec fn spec_image_count(mode: PresentMode, max_images: u32) -> u32
    recommends
        max_images >= 1,
{
    let cap: u32 = if mode == PresentMode::Mailbox {
        3u32
    } else {
        2u32
    };
    let avail: u32 = (max_images - 1) as u32;
    if avail < cap {
        avail
    } else {
        cap
    }
}

/// Whether `modes` offers `m`.
fn contains_present_mode(modes: &Vec<PresentMode>, m: PresentMode) -> (b: bool)
    ensures
        b == modes@.contains(m),
{
    let n = modes.len();
    let mut i: usize = 0;
    while i < n
        invariant
            n == modes@.len(),
            i <= n,
            forall|j: int| 0 <= j < i ==> modes@[j] != m,
        decreases n - i,
    {
        if modes[i] == m {
            return true;
        }
        i = i + 1;
    }
    false
}

/// Whether `alphas` offers `a`.
fn contains_composite_alpha(alphas: &Vec<CompositeAlpha>, a: CompositeAlpha) -> (b: bool)
    ensures
        b == alphas@.contains(a),
{
    let n = alphas.len();
    let mut i: usize = 0;
    while i < n
        invariant
            n == alphas@.len(),
            i <= n,
            forall|j: int| 0 <= j < i ==> alphas@[j] != a,
        decreases n - i,
    {
        if alphas[i] == a {
            return true;
        }
        i = i + 1;
    }
    false
}

/// Pick the best offered present mode: Mailbox over Fifo over Relaxed
/// over Immediate. Fails exactly when the surface offers none.
pub fn choose_present_mode(modes: &Vec<PresentMode>) -> (r: Result<PresentMode, SwapchainError>)
    ensures
        match r {
            Ok(m) => is_best_present_mode(modes@, m),
            Err(e) => e == SwapchainError::NoPresentMode && modes@.len() == 0,
        },
{
    if contains_present_mode(modes, PresentMode::Mailbox) {
        Ok(PresentMode::Mailbox)
    } else if contains_present_mode(modes, PresentMode::Fifo) {
        Ok(PresentMode::Fifo)
    } else if contains_present_mode(modes, PresentMode::Relaxed) {
        Ok(PresentMode::Relaxed)
    } else if contains_present_mode(modes, PresentMode::Immediate) {
        Ok(PresentMode::Immediate)
    } else {
        proof {
            if modes@.len() > 0 {
                assert(modes@.contains(modes@[0]));
            }
        }
        Err(SwapchainError::NoPresentMode)
    }
}

/// Pick the best offered composite-alpha mode: Opaque over Inherit over
/// PreMultiplied over PostMultiplied. Fails exactly when the surface
/// offers none.
pub fn choose_composite_alpha(alphas: &Vec<CompositeAlpha>) -> (r: Result<
    CompositeAlpha,
    SwapchainError,
>)
    ensures
        match r {
            Ok(a) => is_best_composite_alpha(alphas@, a),
            Err(e) => e == SwapchainError::NoCompositeAlpha && alphas@.len() == 0,
        },
{
    if contains_composite_alpha(alphas, CompositeAlpha::Opaque) {
        Ok(CompositeAlpha::Opaque)
    } else if contains_composite_alpha(alphas, CompositeAlpha::Inherit) {
        Ok(CompositeAlpha::Inherit)
    } else if contains_composite_alpha(alphas, CompositeAlpha::PreMultiplied) {
        Ok(CompositeAlpha::PreMultiplied)
    } else if contains_composite_alpha(alphas, CompositeAlpha::PostMultiplied) {
        Ok(CompositeAlpha::PostMultiplied)
    } else {
        proof {
            if alphas@.len() > 0 {
                assert(alphas@.contains(alphas@[0]));
            }
        }
        Err(SwapchainError::NoCompositeAlpha)
    }
}

/// Resolve the surface format: the fallback when the surface states no
/// preference, else the first sRGB entry of its list, else the list's
/// first entry. Fails exactly when the list is there but empty.
#[verifier::loop_isolation(false)]
pub fn choose_format(preferred: &Option<Vec<FormatDesc>>) -> (r: Result<
    FormatChoice,
    SwapchainError,
>)
    ensures
        match r {
            Ok(c) => is_right_format_choice(
                match preferred {
                    Option::None => Option::None,
                    Option::Some(v) => Option::Some(v@),
                },
                c,
            ),
            Err(e) => {
                &&& e == SwapchainError::EmptyFormatList
                &&& preferred matches Option::Some(v) && v@.len() == 0
            },
        },
{
    match preferred {
        Option::None => Ok(FormatChoice::DefaultRgba8Srgb),
        Option::Some(v) => {
            let n = v.len();
            let mut i: usize = 0;
            while i < n
                invariant
                    n == v@.len(),
                    i <= n,
                    forall|k: int| 0 <= k < i ==> !(#[trigger] v@[k]).srgb,
                decreases n - i,
            {
                if v[i].srgb {
                    proof {
                        assert(0 <= i < v@.len() && (#[trigger] v@[i as int]).srgb);
                    }
                    return Ok(FormatChoice::Preferred(i));
                }
                i = i + 1;
            }
            if n > 0 {
                Ok(FormatChoice::Preferred(0))
            } else {
                Err(SwapchainError::EmptyFormatList)
            }
        },
    }
}

/// Clamp the window's size into the extent bounds the surface reports.
pub fn clamp_extent(window: Extent2D, min: Extent2D, max: Extent2D) -> (e: Extent2D)
    requires
        min.width <= max.width,
        min.height <= max.height,
    ensures
        e.width == spec_clamp(window.width, min.width, max.width),
        e.height == spec_clamp(window.height, min.height, max.height),
        min.width <= e.width <= max.width,
        min.height <= e.height <= max.height,
{
    let width = if window.width < min.width {
        min.width
    } else if window.width > max.width {
        max.width
    } else {
        window.width
    };
    let height = if window.height < min.height {
        min.height
    } else if window.height > max.height {
        max.height
    } else {
        window.height
    };
    Extent2D { width, height }
}

/// One less than the surface's exclusive image bound, capped at three
/// images for Mailbox and two for every other mode.
pub fn choose_image_count(mode: PresentMode, max_images: u32) -> (n: u32)
    requires
        max_images >= 1,
    ensures
        n == spec_image_count(mode, max_images),
{
    let cap: u32 = if mode == PresentMode::Mailbox {
        3
    } else {
        2
    };
    let avail = max_images - 1;
    if avail < cap {
        avail
    } else {
        cap
    }
}

/// Resolve the full swapchain configuration from what the surface
/// reports and the window's current size. Each failure names the first
/// missing capability, in the order the checks run: present mode, then
/// composite alpha, then the format list, then color-attachment usage.
/// On success every resolved field obeys its selection rule, the extent
/// lies inside the surface's bounds, and the chain has one layer.
pub fn plan_swapchain(
    caps: &SurfaceCaps,
    preferred_formats: &Option<Vec<FormatDesc>>,
    present_modes: &Vec<PresentMode>,
    composite_alphas: &Vec<CompositeAlpha>,
    window_extent: Extent2D,
) -> (r: Result<SwapchainPlan, SwapchainError>)
    requires
        caps.max_images >= 1,
        caps.min_extent.width <= caps.max_extent.width,
        caps.min_extent.height <= caps.max_extent.height,
    ensures
        match r {
            Ok(plan) => {
                &&& is_best_present_mode(present_modes@, plan.present_mode)
                &&& is_best_composite_alpha(composite_alphas@, plan.composite_alpha)
                &&& is_right_format_choice(
                    match preferred_formats {
                        Option::None => Option::None,
                        Option::Some(v) => Option::Some(v@),
                    },
                    plan.format,
                )
                &&& plan.extent.width == spec_clamp(
                    window_extent.width,
                    caps.min_extent.width,
                    caps.max_extent.width,
                )
                &&& plan.extent.height == spec_clamp(
                    window_extent.height,
                    caps.min_extent.height,
                    caps.max_extent.height,
                )
                &&& plan.image_count == spec_image_count(plan.present_mode, caps.max_images)
                &&& plan.image_layers == 1
                &&& caps.supports_color_attachment
            },
            Err(e) => match e {
                SwapchainError::NoPresentMode => present_modes@.len() == 0,
                SwapchainError::NoCompositeAlpha => {
                    &&& present_modes@.len() > 0
                    &&& composite_alphas@.len() == 0
                },
                SwapchainError::EmptyFormatList => {
                    &&& present_modes@.len() > 0
                    &&& composite_alphas@.len() > 0
                    &&& preferred_formats matches Option::Some(v) && v@.len() == 0
                },
                SwapchainError::NoColorAttachmentSupport => {
                    &&& present_modes@.len() > 0
                    &&& composite_alphas@.len() > 0
                    &&& !(preferred_formats matches Option::Some(v) && v@.len() == 0)
                    &&& !caps.supports_color_attachment
                },
            },
        },
{
    let present_mode = match choose_present_mode(present_modes) {
        Ok(m) => m,
        Err(e) => {
            return Err(e);
        },
    };
    let composite_alpha = match choose_composite_alpha(composite_alphas) {
        Ok(a) => a,
        Err(e) => {
            return Err(e);
        },
    };
    let format = match choose_format(preferred_formats) {
        Ok(c) => c,
        Err(e) => {
            return Err(e);
        },
    };
    if !caps.supports_color_attachment {
        return Err(SwapchainError::NoColorAttachmentSupport);
    }
    let extent = clamp_extent(window_extent, caps.min_extent, caps.max_extent);
    let image_count = choose_image_count(present_mode, caps.max_images);
    Ok(
        SwapchainPlan {
            format,
            present_mode,
            composite_alpha,
            extent,
            image_count,
            image_layers: 1,
        },
    )
}

} // verus!
