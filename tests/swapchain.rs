use render_core::swapchain::{
    choose_extent, choose_image_count, choose_present_mode, choose_surface_format,
    choose_swapchain_config, Extent2D, SurfaceCapabilities, SurfaceFormat, SwapchainSupport,
    ANY_EXTENT, COLOR_SPACE_SRGB_NONLINEAR, FORMAT_B8G8R8A8_SRGB, PRESENT_MODE_FIFO,
    PRESENT_MODE_MAILBOX,
};

fn caps(min: u32, max: u32, current: Extent2D) -> SurfaceCapabilities {
    SurfaceCapabilities {
        min_image_count: min,
        max_image_count: max,
        current_extent: current,
        min_image_extent: Extent2D { width: 100, height: 50 },
        max_image_extent: Extent2D { width: 2000, height: 1000 },
    }
}

const UNORM: i32 = 44;

#[test]
fn preferred_format_is_picked_wherever_it_stands() {
    let formats = vec![
        SurfaceFormat { format: UNORM, color_space: COLOR_SPACE_SRGB_NONLINEAR },
        SurfaceFormat { format: FORMAT_B8G8R8A8_SRGB, color_space: 7 },
        SurfaceFormat { format: FORMAT_B8G8R8A8_SRGB, color_space: COLOR_SPACE_SRGB_NONLINEAR },
    ];
    assert_eq!(choose_surface_format(&formats), Some(formats[2]));
}

#[test]
fn first_format_when_none_is_preferred() {
    let formats = vec![
        SurfaceFormat { format: UNORM, color_space: COLOR_SPACE_SRGB_NONLINEAR },
        SurfaceFormat { format: FORMAT_B8G8R8A8_SRGB, color_space: 7 },
    ];
    assert_eq!(choose_surface_format(&formats), Some(formats[0]));
    assert_eq!(choose_surface_format(&Vec::new()), None);
}

#[test]
fn mailbox_when_offered_else_fifo() {
    assert_eq!(choose_present_mode(&vec![0, 2, 1]), PRESENT_MODE_MAILBOX);
    assert_eq!(choose_present_mode(&vec![0, 3]), PRESENT_MODE_FIFO);
    assert_eq!(choose_present_mode(&Vec::new()), PRESENT_MODE_FIFO);
}

#[test]
fn extent_follows_surface_or_clamps_window() {
    let fixed = caps(2, 0, Extent2D { width: 640, height: 480 });
    assert_eq!(
        choose_extent(&fixed, Extent2D { width: 10, height: 10 }),
        Extent2D { width: 640, height: 480 }
    );
    let any = caps(2, 0, Extent2D { width: ANY_EXTENT, height: ANY_EXTENT });
    assert_eq!(
        choose_extent(&any, Extent2D { width: 10, height: 5000 }),
        Extent2D { width: 100, height: 1000 }
    );
    assert_eq!(
        choose_extent(&any, Extent2D { width: 800, height: 600 }),
        Extent2D { width: 800, height: 600 }
    );
}

#[test]
fn image_count_is_one_more_than_minimum_within_maximum() {
    let e = Extent2D { width: 1, height: 1 };
    assert_eq!(choose_image_count(&caps(2, 4, e)), 3);
    assert_eq!(choose_image_count(&caps(2, 0, e)), 3);
    assert_eq!(choose_image_count(&caps(3, 3, e)), 3);
    assert_eq!(choose_image_count(&caps(u32::MAX, 0, e)), u32::MAX);
}

#[test]
fn no_config_without_formats() {
    let support = SwapchainSupport {
        capabilities: caps(2, 4, Extent2D { width: 1, height: 1 }),
        formats: Vec::new(),
        present_modes: vec![PRESENT_MODE_FIFO],
    };
    assert_eq!(choose_swapchain_config(&support, Extent2D { width: 1, height: 1 }), None);
}

#[test]
fn repeated_rebuild_at_same_size_is_identical() {
    let support = SwapchainSupport {
        capabilities: caps(2, 4, Extent2D { width: ANY_EXTENT, height: ANY_EXTENT }),
        formats: vec![
            SurfaceFormat { format: UNORM, color_space: COLOR_SPACE_SRGB_NONLINEAR },
            SurfaceFormat { format: FORMAT_B8G8R8A8_SRGB, color_space: COLOR_SPACE_SRGB_NONLINEAR },
        ],
        present_modes: vec![PRESENT_MODE_FIFO, PRESENT_MODE_MAILBOX],
    };
    let first = choose_swapchain_config(&support, Extent2D { width: 3000, height: 20 }).unwrap();
    assert_eq!(first.extent, Extent2D { width: 2000, height: 50 });
    assert_eq!(first.image_count, 3);
    assert_eq!(first.present_mode, PRESENT_MODE_MAILBOX);
    assert_eq!(first.format, support.formats[1]);
    let again = choose_swapchain_config(&support, first.extent).unwrap();
    assert_eq!(again, first);
    let third = choose_swapchain_config(&support, first.extent).unwrap();
    assert_eq!(third, first);
}
