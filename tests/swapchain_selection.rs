use ash_gui::swapchain::{
    choose_extent, choose_image_count, choose_present_mode, choose_surface_format, plan_swapchain,
    Extent2D, SurfaceCapabilities, SurfaceFormat, SwapchainError, SwapchainImages,
    SwapchainSupportDetails, COLOR_SPACE_SRGB_NONLINEAR, FORMAT_B8G8R8A8_SRGB,
    PRESENT_MODE_FIFO, PRESENT_MODE_MAILBOX,
};

fn fmt(format: i32, color_space: i32) -> SurfaceFormat {
    SurfaceFormat { format, color_space }
}

fn preferred() -> SurfaceFormat {
    fmt(FORMAT_B8G8R8A8_SRGB, COLOR_SPACE_SRGB_NONLINEAR)
}

#[test]
fn format_selection_prefers_bgra_srgb() {
    let formats = vec![fmt(44, 0), fmt(37, 0), preferred(), fmt(50, 1000104002)];
    assert_eq!(choose_surface_format(&formats), preferred());
}

#[test]
fn format_selection_preferred_first() {
    let formats = vec![preferred(), fmt(44, 0)];
    assert_eq!(choose_surface_format(&formats), preferred());
}

#[test]
fn format_selection_falls_back_to_first() {
    // Right format in the wrong colour space, and the right colour space with
    // another format: neither is the preferred pair.
    let formats = vec![fmt(44, 0), fmt(50, 1000104002), fmt(37, 0)];
    assert_eq!(choose_surface_format(&formats), fmt(44, 0));
}

#[test]
fn present_mode_prefers_mailbox() {
    assert_eq!(choose_present_mode(&vec![0, 2, 1, 3]), PRESENT_MODE_MAILBOX);
    assert_eq!(choose_present_mode(&vec![PRESENT_MODE_MAILBOX]), PRESENT_MODE_MAILBOX);
}

#[test]
fn present_mode_falls_back_to_fifo() {
    assert_eq!(choose_present_mode(&vec![0, 3]), PRESENT_MODE_FIFO);
    assert_eq!(choose_present_mode(&vec![]), PRESENT_MODE_FIFO);
    assert_eq!(choose_present_mode(&vec![0]), PRESENT_MODE_FIFO);
}

#[test]
fn extent_undefined_uses_window_size() {
    let reported = Extent2D { width: u32::MAX, height: u32::MAX };
    assert_eq!(choose_extent(reported, 800, 600), Extent2D { width: 800, height: 600 });
}

#[test]
fn extent_concrete_is_kept() {
    let reported = Extent2D { width: 1024, height: 768 };
    assert_eq!(choose_extent(reported, 800, 600), Extent2D { width: 1024, height: 768 });
}

fn caps(min_image_count: u32, max_image_count: u32) -> SurfaceCapabilities {
    SurfaceCapabilities {
        min_image_count,
        max_image_count,
        current_extent: Extent2D { width: 1024, height: 768 },
    }
}

#[test]
fn image_count_with_maximum() {
    assert_eq!(choose_image_count(&caps(2, 8)), Some(3));
}

#[test]
fn image_count_without_maximum() {
    assert_eq!(choose_image_count(&caps(3, 0)), Some(4));
}

#[test]
fn image_count_capped_by_maximum() {
    assert_eq!(choose_image_count(&caps(2, 2)), Some(2));
    assert_eq!(choose_image_count(&caps(u32::MAX, u32::MAX)), Some(u32::MAX));
}

#[test]
fn image_count_overflow() {
    assert_eq!(choose_image_count(&caps(u32::MAX, 0)), None);
}

#[test]
fn plan_picks_every_setting() {
    let support = SwapchainSupportDetails {
        capabilities: SurfaceCapabilities {
            min_image_count: 2,
            max_image_count: 8,
            current_extent: Extent2D { width: u32::MAX, height: u32::MAX },
        },
        formats: vec![fmt(44, 0), preferred()],
        present_modes: vec![2, 1],
    };
    let plan = plan_swapchain(&support, 800, 600).unwrap();
    assert_eq!(plan.surface_format, preferred());
    assert_eq!(plan.present_mode, PRESENT_MODE_MAILBOX);
    assert_eq!(plan.extent, Extent2D { width: 800, height: 600 });
    assert_eq!(plan.image_count, 3);
}

#[test]
fn plan_without_formats_fails() {
    let support = SwapchainSupportDetails {
        capabilities: caps(2, 8),
        formats: vec![],
        present_modes: vec![2],
    };
    assert_eq!(plan_swapchain(&support, 800, 600), Err(SwapchainError::NoSurfaceFormat));
}

#[test]
fn plan_with_unbounded_image_count_fails() {
    let support = SwapchainSupportDetails {
        capabilities: caps(u32::MAX, 0),
        formats: vec![preferred()],
        present_modes: vec![2],
    };
    assert_eq!(plan_swapchain(&support, 800, 600), Err(SwapchainError::ImageCountOverflow));
}

#[test]
fn one_view_per_swapchain_image() {
    let images: Vec<u64> = vec![10, 20, 30];
    let set = SwapchainImages::new(images, FORMAT_B8G8R8A8_SRGB, |image: &u64, format: i32| {
        (*image + 1, format)
    });
    assert_eq!(set.len(), 3);
    assert_eq!(set.images, vec![10, 20, 30]);
    assert_eq!(set.image_views, vec![(11, 50), (21, 50), (31, 50)]);
}

#[test]
fn no_views_without_images() {
    let set = SwapchainImages::new(Vec::<u64>::new(), 50, |image: &u64, _format: i32| *image);
    assert_eq!(set.len(), 0);
    assert!(set.image_views.is_empty());
}
