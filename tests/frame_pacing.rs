use funky_renderer::frame::{
    AcquireOutcome, Action, Event, FrameError, FrameSync, Phase, PresentOutcome, SwapchainReport,
    MAX_FRAMES_IN_FLIGHT,
};
use funky_renderer::surface::{
    configure, Extent2D, PresentMode, SurfaceCapabilities, SurfaceConfig, SurfaceFormat,
    UNDEFINED_EXTENT,
};

fn caps() -> SurfaceCapabilities {
    SurfaceCapabilities {
        min_image_count: 2,
        max_image_count: 3,
        current_extent: Extent2D { width: UNDEFINED_EXTENT, height: UNDEFINED_EXTENT },
        min_image_extent: Extent2D { width: 1, height: 1 },
        max_image_extent: Extent2D { width: 4096, height: 4096 },
    }
}

fn config_for(extent: Extent2D) -> SurfaceConfig {
    let formats = vec![SurfaceFormat { format: 44, color_space: 0 }];
    let modes = vec![PresentMode::Fifo, PresentMode::Mailbox];
    configure(&caps(), &formats, &modes, extent).unwrap()
}

/// The report of a host that destroyed `retired` views and framebuffers and
/// built `images` of each.
fn report(extent: Extent2D, images: usize, retired: usize) -> SwapchainReport {
    SwapchainReport {
        config: config_for(extent),
        retired_views: retired,
        retired_framebuffers: retired,
        images,
        views: images,
        framebuffers: images,
    }
}

/// Runs one whole redraw in which the swapchain hands out `image`; where the
/// ring asks for a rebuild first, a swapchain of three images is built and the
/// frame goes on.
fn frame(fs: &mut FrameSync, image: usize) {
    let slot = fs.current_slot();
    let mut first = fs.handle(Event::Redraw).unwrap();
    if let Action::Recreate { extent } = first {
        let retired = fs.image_count();
        first = fs.handle(Event::SwapchainRebuilt(report(extent, 3, retired))).unwrap();
    }
    assert_eq!(first, Action::WaitFence { slot });
    assert_eq!(fs.handle(Event::FenceWaited { signaled: true }), Ok(Action::Acquire { slot }));
    let mut a = fs
        .handle(Event::Acquired(AcquireOutcome::Image { index: image, suboptimal: false }))
        .unwrap();
    if let Action::WaitFence { .. } = a {
        a = fs.handle(Event::FenceWaited { signaled: true }).unwrap();
    }
    assert_eq!(a, Action::Record { slot, image });
    assert_eq!(fs.handle(Event::Recorded), Ok(Action::Submit { slot, image }));
    assert_eq!(fs.handle(Event::Submitted { ok: true }), Ok(Action::Present { slot, image }));
    assert_eq!(
        fs.handle(Event::Presented(PresentOutcome::Presented { suboptimal: false })),
        Ok(Action::Nothing)
    );
}

/// A ring whose first frame (which builds the swapchain) was presented from image 0.
fn started(extent: Extent2D) -> FrameSync {
    let mut fs = FrameSync::new(extent);
    frame(&mut fs, 0);
    fs
}

#[test]
fn end_to_end_resize_and_minimize() {
    let mut fs = FrameSync::new(Extent2D { width: 1280, height: 720 });
    for i in 0..5 {
        frame(&mut fs, i % 3);
    }
    assert_eq!(fs.handle(Event::Resized(Extent2D { width: 0, height: 0 })), Ok(Action::Nothing));
    for _ in 0..3 {
        assert_eq!(fs.handle(Event::Redraw), Ok(Action::Nothing));
    }
    assert_eq!(fs.handle(Event::Resized(Extent2D { width: 1920, height: 1080 })), Ok(Action::Nothing));
    for i in 0..5 {
        frame(&mut fs, i % 3);
    }
    assert_eq!(fs.config().unwrap().extent, Extent2D { width: 1920, height: 1080 });
    assert_eq!(fs.presents(), 10);
    assert_eq!(fs.swapchains_created(), 2);
}

#[test]
fn slots_cycle_and_fences_stay_bounded() {
    let mut fs = started(Extent2D { width: 800, height: 600 });
    let mut seen = Vec::new();
    for i in 0..7 {
        seen.push(fs.current_slot());
        frame(&mut fs, (i + 1) % 2);
        assert!(fs.pending_fences() <= MAX_FRAMES_IN_FLIGHT);
    }
    assert_eq!(seen, vec![1, 0, 1, 0, 1, 0, 1]);
    assert_eq!(fs.pending_fences(), 2);
}

#[test]
fn first_redraw_builds_the_swapchain() {
    let mut fs = FrameSync::new(Extent2D { width: 640, height: 480 });
    assert_eq!(fs.swapchains_created(), 0);
    assert_eq!(
        fs.handle(Event::Redraw),
        Ok(Action::Recreate { extent: Extent2D { width: 640, height: 480 } })
    );
    assert_eq!(fs.phase(), Phase::Recreating);
    // The redraw that asked for the swapchain goes on with its frame.
    assert_eq!(
        fs.handle(Event::SwapchainRebuilt(report(Extent2D { width: 640, height: 480 }, 3, 0))),
        Ok(Action::WaitFence { slot: 0 })
    );
    assert_eq!(fs.phase(), Phase::WaitingSlotFence);
    assert_eq!(fs.swapchains_created(), 1);
    assert_eq!(fs.image_count(), 3);
}

#[test]
fn zero_resize_changes_nothing() {
    let mut fs = started(Extent2D { width: 800, height: 600 });
    frame(&mut fs, 0);
    let config = fs.config();
    assert_eq!(fs.handle(Event::Resized(Extent2D { width: 0, height: 600 })), Ok(Action::Nothing));
    for _ in 0..4 {
        assert_eq!(fs.handle(Event::Redraw), Ok(Action::Nothing));
        assert_eq!(fs.phase(), Phase::Idle);
    }
    assert_eq!(fs.config(), config);
    assert_eq!(fs.swapchains_created(), 1);
    assert_eq!(fs.presents(), 2);
    assert!(!fs.is_failed());
}

#[test]
fn reused_image_waits_for_its_fence() {
    let mut fs = started(Extent2D { width: 800, height: 600 });
    // Slot 1 renders image 2 and stays in flight.
    frame(&mut fs, 2);
    assert_eq!(fs.current_slot(), 0);
    assert_eq!(fs.handle(Event::Redraw), Ok(Action::WaitFence { slot: 0 }));
    assert_eq!(fs.handle(Event::FenceWaited { signaled: true }), Ok(Action::Acquire { slot: 0 }));
    // Image 2 comes back before slot 1's fence was seen signaled.
    assert_eq!(
        fs.handle(Event::Acquired(AcquireOutcome::Image { index: 2, suboptimal: false })),
        Ok(Action::WaitFence { slot: 1 })
    );
    assert_eq!(fs.phase(), Phase::WaitingImageFence { image: 2, slot: 1 });
    assert_eq!(fs.handle(Event::Recorded), Err(FrameError::OutOfOrder));
    assert_eq!(fs.handle(Event::FenceWaited { signaled: true }), Ok(Action::Record { slot: 0, image: 2 }));
}

#[test]
fn fresh_image_records_at_once() {
    let mut fs = started(Extent2D { width: 800, height: 600 });
    frame(&mut fs, 2);
    fs.handle(Event::Redraw).unwrap();
    fs.handle(Event::FenceWaited { signaled: true }).unwrap();
    assert_eq!(
        fs.handle(Event::Acquired(AcquireOutcome::Image { index: 1, suboptimal: false })),
        Ok(Action::Record { slot: 0, image: 1 })
    );
}

#[test]
fn shutdown_after_submit_presents_then_tears_down() {
    let mut fs = started(Extent2D { width: 800, height: 600 });
    fs.handle(Event::Redraw).unwrap();
    fs.handle(Event::FenceWaited { signaled: true }).unwrap();
    fs.handle(Event::Acquired(AcquireOutcome::Image { index: 1, suboptimal: false })).unwrap();
    fs.handle(Event::Recorded).unwrap();
    assert_eq!(fs.handle(Event::Submitted { ok: true }), Ok(Action::Present { slot: 1, image: 1 }));
    assert_eq!(fs.handle(Event::ShutdownRequested), Ok(Action::Present { slot: 1, image: 1 }));
    assert_eq!(
        fs.handle(Event::Presented(PresentOutcome::Presented { suboptimal: false })),
        Ok(Action::WaitIdle)
    );
    assert_eq!(fs.handle(Event::DeviceIdle), Ok(Action::Teardown));
    assert_eq!(fs.phase(), Phase::Finished);
    assert_eq!(fs.pending_fences(), 0);
    assert_eq!(fs.presents(), 2);
    assert_eq!(fs.handle(Event::DeviceIdle), Err(FrameError::OutOfOrder));
    assert_eq!(fs.handle(Event::Redraw), Err(FrameError::OutOfOrder));
}

#[test]
fn shutdown_between_frames_waits_idle() {
    let mut fs = started(Extent2D { width: 800, height: 600 });
    frame(&mut fs, 0);
    assert_eq!(fs.handle(Event::ShutdownRequested), Ok(Action::WaitIdle));
    assert_eq!(fs.handle(Event::ShutdownRequested), Err(FrameError::OutOfOrder));
    assert_eq!(fs.handle(Event::DeviceIdle), Ok(Action::Teardown));
}

#[test]
fn out_of_date_acquire_aborts_the_frame() {
    let mut fs = started(Extent2D { width: 800, height: 600 });
    fs.handle(Event::Redraw).unwrap();
    fs.handle(Event::FenceWaited { signaled: true }).unwrap();
    assert_eq!(fs.handle(Event::Acquired(AcquireOutcome::OutOfDate)), Ok(Action::Nothing));
    assert_eq!(fs.phase(), Phase::Idle);
    assert_eq!(fs.current_slot(), 1);
    // Only the first frame's submission is in flight: the aborted one submitted nothing.
    assert_eq!(fs.pending_fences(), 1);
    assert_eq!(
        fs.handle(Event::Redraw),
        Ok(Action::Recreate { extent: Extent2D { width: 800, height: 600 } })
    );
}

#[test]
fn suboptimal_present_recreates_next_frame() {
    let mut fs = started(Extent2D { width: 800, height: 600 });
    fs.handle(Event::Redraw).unwrap();
    fs.handle(Event::FenceWaited { signaled: true }).unwrap();
    fs.handle(Event::Acquired(AcquireOutcome::Image { index: 1, suboptimal: false })).unwrap();
    fs.handle(Event::Recorded).unwrap();
    fs.handle(Event::Submitted { ok: true }).unwrap();
    assert_eq!(
        fs.handle(Event::Presented(PresentOutcome::Presented { suboptimal: true })),
        Ok(Action::Nothing)
    );
    assert_eq!(fs.presents(), 2);
    assert_eq!(fs.current_slot(), 0);
    assert!(matches!(fs.handle(Event::Redraw), Ok(Action::Recreate { .. })));
}

#[test]
fn out_of_date_present_counts_no_present() {
    let mut fs = started(Extent2D { width: 800, height: 600 });
    fs.handle(Event::Redraw).unwrap();
    fs.handle(Event::FenceWaited { signaled: true }).unwrap();
    fs.handle(Event::Acquired(AcquireOutcome::Image { index: 1, suboptimal: false })).unwrap();
    fs.handle(Event::Recorded).unwrap();
    fs.handle(Event::Submitted { ok: true }).unwrap();
    assert_eq!(fs.handle(Event::Presented(PresentOutcome::OutOfDate)), Ok(Action::Nothing));
    assert_eq!(fs.presents(), 1);
    assert_eq!(fs.current_slot(), 0);
    assert!(matches!(fs.handle(Event::Redraw), Ok(Action::Recreate { .. })));
}

#[test]
fn fence_timeout_is_fatal() {
    let mut fs = started(Extent2D { width: 800, height: 600 });
    fs.handle(Event::Redraw).unwrap();
    assert_eq!(fs.handle(Event::FenceWaited { signaled: false }), Ok(Action::WaitIdle));
    assert!(fs.is_failed());
    assert_eq!(fs.phase(), Phase::WaitingIdle);
    assert_eq!(fs.handle(Event::DeviceIdle), Ok(Action::Teardown));
}

#[test]
fn acquire_and_present_errors_are_fatal() {
    let mut fs = started(Extent2D { width: 800, height: 600 });
    fs.handle(Event::Redraw).unwrap();
    fs.handle(Event::FenceWaited { signaled: true }).unwrap();
    assert_eq!(fs.handle(Event::Acquired(AcquireOutcome::Failed)), Ok(Action::WaitIdle));
    assert!(fs.is_failed());

    let mut fs = started(Extent2D { width: 800, height: 600 });
    fs.handle(Event::Redraw).unwrap();
    fs.handle(Event::FenceWaited { signaled: true }).unwrap();
    fs.handle(Event::Acquired(AcquireOutcome::Image { index: 1, suboptimal: false })).unwrap();
    fs.handle(Event::Recorded).unwrap();
    assert_eq!(fs.handle(Event::Submitted { ok: false }), Ok(Action::WaitIdle));
    assert!(fs.is_failed());
}

#[test]
fn out_of_range_image_is_refused() {
    let mut fs = started(Extent2D { width: 800, height: 600 });
    fs.handle(Event::Redraw).unwrap();
    fs.handle(Event::FenceWaited { signaled: true }).unwrap();
    assert_eq!(
        fs.handle(Event::Acquired(AcquireOutcome::Image { index: 3, suboptimal: false })),
        Err(FrameError::ImageOutOfRange)
    );
    assert_eq!(fs.phase(), Phase::Acquiring);
}

#[test]
fn mismatched_rebuild_is_refused() {
    let mut fs = FrameSync::new(Extent2D { width: 800, height: 600 });
    fs.handle(Event::Redraw).unwrap();
    let mut rep = report(Extent2D { width: 800, height: 600 }, 3, 0);
    rep.framebuffers = 2;
    assert_eq!(fs.handle(Event::SwapchainRebuilt(rep)), Err(FrameError::CountMismatch));
    rep.framebuffers = 3;
    rep.views = 4;
    assert_eq!(fs.handle(Event::SwapchainRebuilt(rep)), Err(FrameError::CountMismatch));
    rep.views = 3;
    rep.retired_views = 1;
    assert_eq!(fs.handle(Event::SwapchainRebuilt(rep)), Err(FrameError::CountMismatch));
    assert_eq!(fs.swapchains_created(), 0);
    assert_eq!(fs.phase(), Phase::Recreating);
}

#[test]
fn events_out_of_order_are_refused() {
    let mut fs = started(Extent2D { width: 800, height: 600 });
    assert_eq!(fs.handle(Event::Recorded), Err(FrameError::OutOfOrder));
    assert_eq!(fs.handle(Event::Submitted { ok: true }), Err(FrameError::OutOfOrder));
    assert_eq!(fs.handle(Event::DeviceIdle), Err(FrameError::OutOfOrder));
    assert_eq!(fs.handle(Event::SurfaceUnavailable), Err(FrameError::OutOfOrder));
    assert_eq!(
        fs.handle(Event::Presented(PresentOutcome::Presented { suboptimal: false })),
        Err(FrameError::OutOfOrder)
    );
    assert_eq!(fs.phase(), Phase::Idle);
}

#[test]
fn unavailable_surface_waits_for_a_resize() {
    let mut fs = FrameSync::new(Extent2D { width: 800, height: 600 });
    fs.handle(Event::Redraw).unwrap();
    assert_eq!(fs.handle(Event::SurfaceUnavailable), Ok(Action::Nothing));
    assert_eq!(fs.handle(Event::Redraw), Ok(Action::Nothing));
    fs.handle(Event::Resized(Extent2D { width: 1024, height: 768 })).unwrap();
    assert_eq!(
        fs.handle(Event::Redraw),
        Ok(Action::Recreate { extent: Extent2D { width: 1024, height: 768 } })
    );
}

#[test]
fn resize_round_trip_keeps_counts() {
    let e1 = Extent2D { width: 1280, height: 720 };
    let e2 = Extent2D { width: 300, height: 200 };
    let mut fs = started(e1);
    let first = (fs.config(), fs.image_count());
    for e in [e2, e1] {
        fs.handle(Event::Resized(e)).unwrap();
        frame(&mut fs, 1);
    }
    assert_eq!((fs.config(), fs.image_count()), first);
    assert_eq!(fs.swapchains_created(), 3);
}

#[test]
fn recreate_same_extent_is_idempotent() {
    let e = Extent2D { width: 1024, height: 768 };
    let mut fs = started(e);
    let first = (fs.config(), fs.image_count());
    fs.handle(Event::Resized(e)).unwrap();
    frame(&mut fs, 1);
    assert_eq!((fs.config(), fs.image_count()), first);
    assert_eq!(fs.config().unwrap().min_image_count, 3);
    assert_eq!(fs.config().unwrap().present_mode, PresentMode::Mailbox);
}

#[test]
fn rebuild_leaking_old_targets_is_refused() {
    let mut fs = started(Extent2D { width: 800, height: 600 });
    fs.handle(Event::Resized(Extent2D { width: 900, height: 700 })).unwrap();
    assert!(matches!(fs.handle(Event::Redraw), Ok(Action::Recreate { .. })));
    // Three views and framebuffers were live; only two were destroyed.
    let leaky = report(Extent2D { width: 900, height: 700 }, 3, 2);
    assert_eq!(fs.handle(Event::SwapchainRebuilt(leaky)), Err(FrameError::CountMismatch));
    let clean = report(Extent2D { width: 900, height: 700 }, 3, 3);
    assert_eq!(fs.handle(Event::SwapchainRebuilt(clean)), Ok(Action::WaitFence { slot: 1 }));
}

#[test]
fn redraw_while_minimized_mid_frame_does_nothing() {
    let mut fs = started(Extent2D { width: 800, height: 600 });
    fs.handle(Event::Redraw).unwrap();
    fs.handle(Event::FenceWaited { signaled: true }).unwrap();
    fs.handle(Event::Acquired(AcquireOutcome::Image { index: 1, suboptimal: false })).unwrap();
    assert_eq!(fs.handle(Event::Resized(Extent2D { width: 0, height: 0 })), Ok(Action::Nothing));
    for _ in 0..3 {
        assert_eq!(fs.handle(Event::Redraw), Ok(Action::Nothing));
        assert_eq!(fs.phase(), Phase::Recording { image: 1 });
    }
    assert_eq!(fs.presents(), 1);
    assert_eq!(fs.swapchains_created(), 1);
    assert!(!fs.is_failed());
}
