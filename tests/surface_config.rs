use funky_renderer::surface::{
    choose_extent, choose_image_count, choose_present_mode, clamp, configure, Extent2D,
    PresentMode, SurfaceCapabilities, SurfaceError, SurfaceFormat, UNDEFINED_EXTENT,
};

fn caps(min: u32, max: u32, current: Extent2D) -> SurfaceCapabilities {
    SurfaceCapabilities {
        min_image_count: min,
        max_image_count: max,
        current_extent: current,
        min_image_extent: Extent2D { width: 64, height: 64 },
        max_image_extent: Extent2D { width: 2048, height: 1024 },
    }
}

const FREE: Extent2D = Extent2D { width: UNDEFINED_EXTENT, height: UNDEFINED_EXTENT };

#[test]
fn image_count_is_one_over_minimum() {
    assert_eq!(choose_image_count(&caps(2, 8, FREE)), 3);
    assert_eq!(choose_image_count(&caps(2, 0, FREE)), 3);
}

#[test]
fn image_count_held_to_maximum() {
    assert_eq!(choose_image_count(&caps(3, 3, FREE)), 3);
    assert_eq!(choose_image_count(&caps(u32::MAX, 0, FREE)), u32::MAX);
}

#[test]
fn extent_follows_surface_when_defined() {
    let c = caps(2, 3, Extent2D { width: 1280, height: 720 });
    assert_eq!(choose_extent(&c, Extent2D { width: 10, height: 10 }), Extent2D { width: 1280, height: 720 });
}

#[test]
fn extent_clamped_when_free() {
    let c = caps(2, 3, FREE);
    assert_eq!(choose_extent(&c, Extent2D { width: 4000, height: 10 }), Extent2D { width: 2048, height: 64 });
    assert_eq!(choose_extent(&c, Extent2D { width: 800, height: 600 }), Extent2D { width: 800, height: 600 });
    assert_eq!(clamp(5, 1, 9), 5);
    assert_eq!(clamp(0, 1, 9), 1);
    assert_eq!(clamp(10, 1, 9), 9);
}

#[test]
fn present_mode_preference() {
    assert_eq!(choose_present_mode(&vec![PresentMode::Fifo, PresentMode::Mailbox]), PresentMode::Mailbox);
    assert_eq!(choose_present_mode(&vec![PresentMode::Immediate, PresentMode::Fifo]), PresentMode::Immediate);
    assert_eq!(choose_present_mode(&vec![PresentMode::Fifo, PresentMode::FifoRelaxed]), PresentMode::Fifo);
    assert_eq!(choose_present_mode(&vec![]), PresentMode::Fifo);
}

#[test]
fn configure_picks_first_format() {
    let formats = vec![
        SurfaceFormat { format: 50, color_space: 0 },
        SurfaceFormat { format: 44, color_space: 0 },
    ];
    let cfg = configure(&caps(2, 0, FREE), &formats, &vec![PresentMode::Immediate], Extent2D { width: 900, height: 500 }).unwrap();
    assert_eq!(cfg.format, SurfaceFormat { format: 50, color_space: 0 });
    assert_eq!(cfg.extent, Extent2D { width: 900, height: 500 });
    assert_eq!(cfg.present_mode, PresentMode::Immediate);
    assert_eq!(cfg.min_image_count, 3);
}

#[test]
fn configure_refuses_zero_extent() {
    let formats = vec![SurfaceFormat { format: 44, color_space: 0 }];
    assert_eq!(
        configure(&caps(2, 0, FREE), &formats, &vec![], Extent2D { width: 0, height: 500 }),
        Err(SurfaceError::Minimized)
    );
    assert_eq!(
        configure(&caps(2, 0, Extent2D { width: 0, height: 0 }), &formats, &vec![], Extent2D { width: 10, height: 10 }),
        Err(SurfaceError::Minimized)
    );
}

#[test]
fn configure_needs_a_format() {
    assert_eq!(
        configure(&caps(2, 0, FREE), &vec![], &vec![], Extent2D { width: 100, height: 100 }),
        Err(SurfaceError::NoFormat)
    );
}

#[test]
fn zero_extent_detected() {
    assert!(Extent2D { width: 0, height: 3 }.is_zero());
    assert!(!Extent2D { width: 1, height: 3 }.is_zero());
}
