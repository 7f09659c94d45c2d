use render_core::scheduler::{
    AcquireResult, Action, Event, FrameError, FrameScheduler, Phase, PresentResult,
    MAX_FRAMES_IN_FLIGHT,
};
use render_core::swapchain::{
    choose_swapchain_config, Extent2D, SurfaceCapabilities, SurfaceFormat, SwapchainSupport,
    COLOR_SPACE_SRGB_NONLINEAR, FORMAT_B8G8R8A8_SRGB, PRESENT_MODE_FIFO,
};

/// Runs one full iteration that acquires `image` and presents with `present`.
fn run_frame(s: &mut FrameScheduler, image: u32, present: PresentResult) -> Vec<Action> {
    let mut actions = Vec::new();
    let slot = s.current_slot();
    let a = s.step(Event::Tick);
    assert_eq!(a, Action::WaitFence { slot });
    actions.push(a);
    let a = s.step(Event::FenceWaited);
    assert_eq!(a, Action::Acquire { slot });
    actions.push(a);
    let mut a = s.step(Event::Acquired(AcquireResult::Image(image)));
    if let Action::WaitImageFence { .. } = a {
        actions.push(a);
        a = s.step(Event::ImageFenceWaited);
    }
    assert_eq!(a, Action::Render { slot, image: image as usize });
    actions.push(a);
    let a = s.step(Event::Submitted);
    assert_eq!(a, Action::Present { slot, image: image as usize });
    actions.push(a);
    actions.push(s.step(Event::Presented(present)));
    actions
}

fn submissions(actions: &[Action]) -> usize {
    actions.iter().filter(|a| matches!(a, Action::Render { .. })).count()
}

#[test]
fn new_scheduler_starts_at_slot_zero() {
    let s = FrameScheduler::new(3);
    assert_eq!(s.current_slot(), 0);
    assert_eq!(s.phase(), Phase::Idle);
    assert_eq!(s.image_count(), 3);
    assert_eq!(s.in_flight(), 0);
    assert_eq!(s.claimant(0), None);
    assert_eq!(s.claimant(3), None);
    assert!(!s.is_suspended());
    assert!(!s.is_resize_pending());
}

#[test]
fn slots_cycle_round_robin() {
    let mut s = FrameScheduler::new(3);
    for n in 0..10u32 {
        assert_eq!(s.current_slot(), (n as usize) % MAX_FRAMES_IN_FLIGHT);
        let actions = run_frame(&mut s, n % 3, PresentResult::Success);
        assert_eq!(actions.last(), Some(&Action::Done));
    }
    assert_eq!(s.current_slot(), 10 % MAX_FRAMES_IN_FLIGHT);
}

#[test]
fn in_flight_never_exceeds_the_bound() {
    let mut s = FrameScheduler::new(3);
    for n in 0..6u32 {
        // Each slot keeps to its own image, so no image-fence wait intervenes.
        run_frame(&mut s, n % 2, PresentResult::Success);
        assert!(s.in_flight() <= MAX_FRAMES_IN_FLIGHT);
    }
    assert_eq!(s.in_flight(), MAX_FRAMES_IN_FLIGHT);
    // Waiting on the current slot's fence marks its submission complete.
    s.step(Event::Tick);
    s.step(Event::FenceWaited);
    assert_eq!(s.in_flight(), MAX_FRAMES_IN_FLIGHT - 1);
}

#[test]
fn reclaiming_an_image_waits_for_its_previous_slot() {
    let mut s = FrameScheduler::new(3);
    // Slot 0 renders image 1 and leaves it in flight.
    run_frame(&mut s, 1, PresentResult::Success);
    assert_eq!(s.claimant(1), Some(0));
    assert_eq!(s.in_flight(), 1);
    // Slot 1 acquires image 1 as well: it must wait on slot 0's fence first.
    assert_eq!(s.step(Event::Tick), Action::WaitFence { slot: 1 });
    assert_eq!(s.step(Event::FenceWaited), Action::Acquire { slot: 1 });
    assert_eq!(
        s.step(Event::Acquired(AcquireResult::Image(1))),
        Action::WaitImageFence { slot: 0 }
    );
    assert_eq!(s.claimant(1), Some(0));
    assert_eq!(s.phase(), Phase::WaitingImageFence);
    assert_eq!(s.step(Event::ImageFenceWaited), Action::Render { slot: 1, image: 1 });
    assert_eq!(s.claimant(1), Some(1));
    assert_eq!(s.in_flight(), 0);
}

#[test]
fn image_of_completed_slot_is_claimed_without_waiting() {
    let mut s = FrameScheduler::new(2);
    run_frame(&mut s, 0, PresentResult::Success);
    run_frame(&mut s, 1, PresentResult::Success);
    // Back at slot 0: its fence wait covers image 0, so no second wait.
    s.step(Event::Tick);
    s.step(Event::FenceWaited);
    assert_eq!(
        s.step(Event::Acquired(AcquireResult::Image(0))),
        Action::Render { slot: 0, image: 0 }
    );
}

#[test]
fn out_of_date_acquire_recreates_without_submitting() {
    let mut s = FrameScheduler::new(3);
    let mut actions = Vec::new();
    actions.push(s.step(Event::Tick));
    actions.push(s.step(Event::FenceWaited));
    let a = s.step(Event::Acquired(AcquireResult::OutOfDate));
    assert_eq!(a, Action::Recreate);
    actions.push(a);
    assert_eq!(s.phase(), Phase::Recreating);
    // Submitting is not accepted while recreating.
    assert_eq!(s.step(Event::Submitted), Action::Done);
    actions.push(s.step(Event::Recreated { image_count: 3 }));
    assert_eq!(submissions(&actions), 0);
    assert_eq!(s.in_flight(), 0);
    // The iteration did not advance.
    assert_eq!(s.current_slot(), 0);
    assert_eq!(s.phase(), Phase::Idle);
}

#[test]
fn suboptimal_present_recreates_and_advances() {
    let mut s = FrameScheduler::new(3);
    let actions = run_frame(&mut s, 0, PresentResult::Suboptimal);
    assert_eq!(actions.last(), Some(&Action::Recreate));
    assert_eq!(s.current_slot(), 1);
    assert_eq!(s.step(Event::Recreated { image_count: 4 }), Action::Done);
    assert_eq!(s.image_count(), 4);
    assert_eq!(s.claimant(0), None);
}

#[test]
fn out_of_date_present_recreates() {
    let mut s = FrameScheduler::new(3);
    let actions = run_frame(&mut s, 2, PresentResult::OutOfDate);
    assert_eq!(actions.last(), Some(&Action::Recreate));
}

#[test]
fn acquire_failure_is_fatal() {
    let mut s = FrameScheduler::new(3);
    s.step(Event::Tick);
    s.step(Event::FenceWaited);
    assert_eq!(
        s.step(Event::Acquired(AcquireResult::Failed(-4))),
        Action::Fail(FrameError::Api(-4))
    );
}

#[test]
fn acquire_of_unknown_image_is_fatal() {
    let mut s = FrameScheduler::new(3);
    s.step(Event::Tick);
    s.step(Event::FenceWaited);
    assert_eq!(
        s.step(Event::Acquired(AcquireResult::Image(3))),
        Action::Fail(FrameError::ImageOutOfRange(3))
    );
}

#[test]
fn present_failure_is_fatal_without_advancing() {
    let mut s = FrameScheduler::new(3);
    let actions = run_frame(&mut s, 0, PresentResult::Failed(-3));
    assert_eq!(actions.last(), Some(&Action::Fail(FrameError::Api(-3))));
    assert_eq!(s.current_slot(), 0);
}

#[test]
fn present_failure_after_resize_is_fatal() {
    let mut s = FrameScheduler::new(3);
    s.step(Event::Resized { width: 640, height: 480 });
    let actions = run_frame(&mut s, 0, PresentResult::Failed(-3));
    assert_eq!(actions.last(), Some(&Action::Fail(FrameError::Api(-3))));
    assert_eq!(s.current_slot(), 0);
    assert!(s.is_resize_pending());
}

#[test]
fn events_outside_their_phase_are_ignored() {
    let mut s = FrameScheduler::new(3);
    assert_eq!(s.step(Event::FenceWaited), Action::Done);
    assert_eq!(s.step(Event::Submitted), Action::Done);
    assert_eq!(s.step(Event::Presented(PresentResult::Success)), Action::Done);
    assert_eq!(s.step(Event::Recreated { image_count: 5 }), Action::Done);
    assert_eq!(s.image_count(), 3);
    assert_eq!(s.phase(), Phase::Idle);
    s.step(Event::Tick);
    // A second tick in the middle of an iteration starts nothing.
    assert_eq!(s.step(Event::Tick), Action::Done);
    assert_eq!(s.phase(), Phase::WaitingFence);
}

#[test]
fn close_destroys_and_then_ignores_everything() {
    let mut s = FrameScheduler::new(3);
    assert_eq!(s.step(Event::CloseRequested), Action::Destroy);
    assert_eq!(s.phase(), Phase::Closed);
    assert_eq!(s.step(Event::Tick), Action::Done);
    assert_eq!(s.step(Event::CloseRequested), Action::Done);
    assert_eq!(s.step(Event::Resized { width: 0, height: 0 }), Action::Done);
    assert!(!s.is_suspended());
}

#[test]
fn mock_surface_resize_scenario() {
    let support = SwapchainSupport {
        capabilities: SurfaceCapabilities {
            min_image_count: 2,
            max_image_count: 4,
            current_extent: Extent2D { width: 1024, height: 768 },
            min_image_extent: Extent2D { width: 1, height: 1 },
            max_image_extent: Extent2D { width: 4096, height: 4096 },
        },
        formats: vec![SurfaceFormat {
            format: FORMAT_B8G8R8A8_SRGB,
            color_space: COLOR_SPACE_SRGB_NONLINEAR,
        }],
        present_modes: vec![PRESENT_MODE_FIFO],
    };
    let config = choose_swapchain_config(&support, Extent2D { width: 1024, height: 768 }).unwrap();
    assert_eq!(config.image_count, 3);
    let mut s = FrameScheduler::new(config.image_count as usize);
    assert_eq!(s.image_count(), 3);

    // Minimised: ticks render nothing.
    assert_eq!(s.step(Event::Resized { width: 0, height: 0 }), Action::Done);
    assert!(s.is_suspended());
    assert_eq!(s.step(Event::Tick), Action::Done);
    assert_eq!(s.phase(), Phase::Idle);

    // Restored: the next tick renders and ends in a rebuild.
    s.step(Event::Resized { width: 800, height: 600 });
    assert!(!s.is_suspended());
    assert!(s.is_resize_pending());
    let actions = run_frame(&mut s, 0, PresentResult::Success);
    assert_eq!(actions.last(), Some(&Action::Recreate));
    assert_eq!(s.step(Event::Recreated { image_count: 3 }), Action::Done);
    assert!(!s.is_resize_pending());

    // Then normal cycling resumes.
    let slot = s.current_slot();
    let actions = run_frame(&mut s, 1, PresentResult::Success);
    assert_eq!(actions.last(), Some(&Action::Done));
    assert_eq!(s.current_slot(), (slot + 1) % MAX_FRAMES_IN_FLIGHT);
}
