use frame_engine::errors::SwapchainError;
use frame_engine::swapchain::{
    choose_composite_alpha, choose_format, choose_image_count, choose_present_mode, clamp_extent,
    plan_swapchain, CompositeAlpha, Extent2D, FormatChoice, FormatDesc, PresentMode, SurfaceCaps,
};

fn caps_800_600() -> SurfaceCaps {
    SurfaceCaps {
        max_images: 4,
        min_extent: Extent2D { width: 1, height: 1 },
        max_extent: Extent2D { width: 4096, height: 4096 },
        supports_color_attachment: true,
    }
}

#[test]
fn present_mode_prefers_mailbox_over_fifo() {
    let modes = vec![PresentMode::Fifo, PresentMode::Mailbox, PresentMode::Immediate];
    assert_eq!(choose_present_mode(&modes), Ok(PresentMode::Mailbox));
}

#[test]
fn present_mode_falls_back_down_the_priority_list() {
    assert_eq!(
        choose_present_mode(&vec![PresentMode::Immediate, PresentMode::Relaxed]),
        Ok(PresentMode::Relaxed)
    );
    assert_eq!(
        choose_present_mode(&vec![PresentMode::Immediate]),
        Ok(PresentMode::Immediate)
    );
}

#[test]
fn present_mode_empty_list_is_an_error() {
    assert_eq!(choose_present_mode(&vec![]), Err(SwapchainError::NoPresentMode));
}

#[test]
fn composite_alpha_prefers_opaque_then_inherit() {
    let alphas = vec![CompositeAlpha::PostMultiplied, CompositeAlpha::Inherit];
    assert_eq!(choose_composite_alpha(&alphas), Ok(CompositeAlpha::Inherit));
    let alphas = vec![CompositeAlpha::Opaque, CompositeAlpha::Inherit];
    assert_eq!(choose_composite_alpha(&alphas), Ok(CompositeAlpha::Opaque));
}

#[test]
fn composite_alpha_empty_list_is_an_error() {
    assert_eq!(choose_composite_alpha(&vec![]), Err(SwapchainError::NoCompositeAlpha));
}

#[test]
fn format_defaults_when_surface_has_no_preference() {
    assert_eq!(choose_format(&None), Ok(FormatChoice::DefaultRgba8Srgb));
}

#[test]
fn format_picks_first_srgb_entry() {
    let formats = vec![
        FormatDesc { srgb: false },
        FormatDesc { srgb: true },
        FormatDesc { srgb: true },
    ];
    assert_eq!(choose_format(&Some(formats)), Ok(FormatChoice::Preferred(1)));
}

#[test]
fn format_falls_back_to_first_entry_without_srgb() {
    let formats = vec![FormatDesc { srgb: false }, FormatDesc { srgb: false }];
    assert_eq!(choose_format(&Some(formats)), Ok(FormatChoice::Preferred(0)));
}

#[test]
fn format_empty_preferred_list_is_an_error() {
    assert_eq!(choose_format(&Some(vec![])), Err(SwapchainError::EmptyFormatList));
}

#[test]
fn extent_is_clamped_into_surface_bounds() {
    let min = Extent2D { width: 100, height: 100 };
    let max = Extent2D { width: 1920, height: 1080 };
    let inside = clamp_extent(Extent2D { width: 800, height: 600 }, min, max);
    assert_eq!(inside, Extent2D { width: 800, height: 600 });
    let too_big = clamp_extent(Extent2D { width: 5000, height: 600 }, min, max);
    assert_eq!(too_big, Extent2D { width: 1920, height: 600 });
    let too_small = clamp_extent(Extent2D { width: 10, height: 20 }, min, max);
    assert_eq!(too_small, Extent2D { width: 100, height: 100 });
}

#[test]
fn image_count_is_three_for_mailbox_two_otherwise() {
    assert_eq!(choose_image_count(PresentMode::Mailbox, 5), 3);
    assert_eq!(choose_image_count(PresentMode::Fifo, 5), 2);
    assert_eq!(choose_image_count(PresentMode::Relaxed, 5), 2);
    assert_eq!(choose_image_count(PresentMode::Mailbox, 2), 1);
    assert_eq!(choose_image_count(PresentMode::Fifo, 2), 1);
}

#[test]
fn full_plan_resolves_every_field() {
    let caps = caps_800_600();
    let formats = Some(vec![FormatDesc { srgb: false }, FormatDesc { srgb: true }]);
    let modes = vec![PresentMode::Fifo, PresentMode::Mailbox];
    let alphas = vec![CompositeAlpha::Opaque];
    let plan = plan_swapchain(
        &caps,
        &formats,
        &modes,
        &alphas,
        Extent2D { width: 800, height: 600 },
    )
    .unwrap();
    assert_eq!(plan.present_mode, PresentMode::Mailbox);
    assert_eq!(plan.composite_alpha, CompositeAlpha::Opaque);
    assert_eq!(plan.format, FormatChoice::Preferred(1));
    assert_eq!(plan.extent, Extent2D { width: 800, height: 600 });
    assert_eq!(plan.image_count, 3);
    assert_eq!(plan.image_layers, 1);
}

#[test]
fn plan_reports_the_first_missing_capability() {
    let caps = caps_800_600();
    let formats = Some(vec![FormatDesc { srgb: true }]);
    assert_eq!(
        plan_swapchain(&caps, &formats, &vec![], &vec![], Extent2D { width: 800, height: 600 }),
        Err(SwapchainError::NoPresentMode)
    );
    assert_eq!(
        plan_swapchain(
            &caps,
            &formats,
            &vec![PresentMode::Fifo],
            &vec![],
            Extent2D { width: 800, height: 600 },
        ),
        Err(SwapchainError::NoCompositeAlpha)
    );
    assert_eq!(
        plan_swapchain(
            &caps,
            &Some(vec![]),
            &vec![PresentMode::Fifo],
            &vec![CompositeAlpha::Opaque],
            Extent2D { width: 800, height: 600 },
        ),
        Err(SwapchainError::EmptyFormatList)
    );
    let mut no_color = caps_800_600();
    no_color.supports_color_attachment = false;
    assert_eq!(
        plan_swapchain(
            &no_color,
            &formats,
            &vec![PresentMode::Fifo],
            &vec![CompositeAlpha::Opaque],
            Extent2D { width: 800, height: 600 },
        ),
        Err(SwapchainError::NoColorAttachmentSupport)
    );
}
