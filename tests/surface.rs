use ash::vk;
use vulkan_renderer::surface::{
    choose_presentation_mode, choose_surface_format, compute_swap_extent, plan_swapchain, swapchain_image_count,
    Extent2D, SurfaceCapabilities, SurfaceError, SurfaceFormat, COLOR_SPACE_SRGB_NONLINEAR, EXTENT_UNDEFINED,
    FORMAT_B8G8R8A8_SRGB, FORMAT_UNDEFINED, PRESENT_MODE_FIFO, PRESENT_MODE_IMMEDIATE, PRESENT_MODE_MAILBOX,
};

fn fmt(format: vk::Format, color_space: vk::ColorSpaceKHR) -> SurfaceFormat {
    SurfaceFormat { format: format.as_raw(), color_space: color_space.as_raw() }
}

fn caps(current: Extent2D, min: Extent2D, max: Extent2D, min_count: u32, max_count: u32) -> SurfaceCapabilities {
    SurfaceCapabilities {
        min_image_count: min_count,
        max_image_count: max_count,
        current_extent: current,
        min_image_extent: min,
        max_image_extent: max,
        current_transform: vk::SurfaceTransformFlagsKHR::IDENTITY.as_raw(),
    }
}

#[test]
fn raw_values_match_the_api() {
    assert_eq!(FORMAT_UNDEFINED, vk::Format::UNDEFINED.as_raw());
    assert_eq!(FORMAT_B8G8R8A8_SRGB, vk::Format::B8G8R8A8_SRGB.as_raw());
    assert_eq!(COLOR_SPACE_SRGB_NONLINEAR, vk::ColorSpaceKHR::SRGB_NONLINEAR.as_raw());
    assert_eq!(PRESENT_MODE_IMMEDIATE, vk::PresentModeKHR::IMMEDIATE.as_raw());
    assert_eq!(PRESENT_MODE_MAILBOX, vk::PresentModeKHR::MAILBOX.as_raw());
    assert_eq!(PRESENT_MODE_FIFO, vk::PresentModeKHR::FIFO.as_raw());
    assert_eq!(EXTENT_UNDEFINED, u32::MAX);
}

#[test]
fn undefined_only_format_gives_preferred() {
    let formats = vec![fmt(vk::Format::UNDEFINED, vk::ColorSpaceKHR::DISPLAY_P3_NONLINEAR_EXT)];
    assert_eq!(
        choose_surface_format(&formats),
        Some(fmt(vk::Format::B8G8R8A8_SRGB, vk::ColorSpaceKHR::SRGB_NONLINEAR))
    );
}

#[test]
fn preferred_format_found_among_others() {
    let formats = vec![
        fmt(vk::Format::R8G8B8A8_UNORM, vk::ColorSpaceKHR::SRGB_NONLINEAR),
        fmt(vk::Format::B8G8R8A8_SRGB, vk::ColorSpaceKHR::SRGB_NONLINEAR),
    ];
    assert_eq!(choose_surface_format(&formats), Some(formats[1]));
}

#[test]
fn first_format_when_preferred_missing() {
    let formats = vec![
        fmt(vk::Format::R8G8B8A8_UNORM, vk::ColorSpaceKHR::SRGB_NONLINEAR),
        fmt(vk::Format::B8G8R8A8_SRGB, vk::ColorSpaceKHR::EXTENDED_SRGB_LINEAR_EXT),
    ];
    assert_eq!(choose_surface_format(&formats), Some(formats[0]));
}

#[test]
fn undefined_among_several_is_not_the_sentinel() {
    let formats = vec![
        fmt(vk::Format::UNDEFINED, vk::ColorSpaceKHR::SRGB_NONLINEAR),
        fmt(vk::Format::R8G8B8A8_UNORM, vk::ColorSpaceKHR::SRGB_NONLINEAR),
    ];
    assert_eq!(choose_surface_format(&formats), Some(formats[0]));
}

#[test]
fn no_formats_gives_none() {
    assert_eq!(choose_surface_format(&vec![]), None);
}

#[test]
fn mailbox_preferred_over_fifo() {
    let modes = vec![vk::PresentModeKHR::FIFO.as_raw(), vk::PresentModeKHR::MAILBOX.as_raw()];
    assert_eq!(choose_presentation_mode(&modes), vk::PresentModeKHR::MAILBOX.as_raw());
}

#[test]
fn immediate_preferred_over_fifo() {
    let modes = vec![vk::PresentModeKHR::FIFO.as_raw(), vk::PresentModeKHR::IMMEDIATE.as_raw()];
    assert_eq!(choose_presentation_mode(&modes), vk::PresentModeKHR::IMMEDIATE.as_raw());
}

#[test]
fn fifo_alone_gives_fifo() {
    let modes = vec![vk::PresentModeKHR::FIFO.as_raw()];
    assert_eq!(choose_presentation_mode(&modes), vk::PresentModeKHR::FIFO.as_raw());
}

#[test]
fn mailbox_wins_after_immediate() {
    let modes = vec![
        vk::PresentModeKHR::IMMEDIATE.as_raw(),
        vk::PresentModeKHR::FIFO_RELAXED.as_raw(),
        vk::PresentModeKHR::MAILBOX.as_raw(),
    ];
    assert_eq!(choose_presentation_mode(&modes), PRESENT_MODE_MAILBOX);
}

#[test]
fn no_modes_falls_back_to_fifo() {
    assert_eq!(choose_presentation_mode(&vec![]), PRESENT_MODE_FIFO);
}

#[test]
fn current_extent_used_verbatim() {
    let c = caps(
        Extent2D { width: 1024, height: 768 },
        Extent2D { width: 1, height: 1 },
        Extent2D { width: 4096, height: 4096 },
        2,
        8,
    );
    assert_eq!(compute_swap_extent(&c, Extent2D { width: 10, height: 10 }), Extent2D { width: 1024, height: 768 });
}

#[test]
fn window_size_clamped_into_bounds() {
    let c = caps(
        Extent2D { width: EXTENT_UNDEFINED, height: EXTENT_UNDEFINED },
        Extent2D { width: 100, height: 100 },
        Extent2D { width: 800, height: 600 },
        2,
        8,
    );
    assert_eq!(compute_swap_extent(&c, Extent2D { width: 50, height: 5000 }), Extent2D { width: 100, height: 600 });
    assert_eq!(compute_swap_extent(&c, Extent2D { width: 640, height: 480 }), Extent2D { width: 640, height: 480 });
}

#[test]
fn image_count_is_one_above_minimum() {
    let e = Extent2D { width: 1, height: 1 };
    assert_eq!(swapchain_image_count(&caps(e, e, e, 2, 8)), 3);
    assert_eq!(swapchain_image_count(&caps(e, e, e, 2, 0)), 3);
}

#[test]
fn image_count_clamped_to_maximum() {
    let e = Extent2D { width: 1, height: 1 };
    assert_eq!(swapchain_image_count(&caps(e, e, e, 3, 3)), 3);
    assert_eq!(swapchain_image_count(&caps(e, e, e, u32::MAX, 0)), u32::MAX);
}

#[test]
fn swapchain_plan_combines_choices() {
    let c = caps(
        Extent2D { width: 800, height: 600 },
        Extent2D { width: 1, height: 1 },
        Extent2D { width: 4096, height: 4096 },
        2,
        0,
    );
    let formats = vec![fmt(vk::Format::UNDEFINED, vk::ColorSpaceKHR::SRGB_NONLINEAR)];
    let modes = vec![PRESENT_MODE_FIFO, PRESENT_MODE_MAILBOX];
    let plan = plan_swapchain(&c, &formats, &modes, Extent2D { width: 1, height: 1 }).unwrap();
    assert_eq!(plan.image_count, 3);
    assert_eq!(plan.format, SurfaceFormat { format: FORMAT_B8G8R8A8_SRGB, color_space: COLOR_SPACE_SRGB_NONLINEAR });
    assert_eq!(plan.present_mode, PRESENT_MODE_MAILBOX);
    assert_eq!(plan.extent, Extent2D { width: 800, height: 600 });
    assert_eq!(plan.pre_transform, vk::SurfaceTransformFlagsKHR::IDENTITY.as_raw());
    assert_eq!(plan.array_layers, 1);
    assert_eq!(plan.image_usage, vk::ImageUsageFlags::COLOR_ATTACHMENT.as_raw());
    assert_eq!(plan.composite_alpha, vk::CompositeAlphaFlagsKHR::OPAQUE.as_raw());
    assert!(plan.clipped);
}

#[test]
fn swapchain_plan_without_formats_fails() {
    let e = Extent2D { width: 1, height: 1 };
    let c = caps(e, e, e, 1, 0);
    assert_eq!(plan_swapchain(&c, &vec![], &vec![PRESENT_MODE_FIFO], e), Err(SurfaceError::FormatNotSupported));
}
