use vulkan_renderer::frame::{FrameAction, FrameError, FrameEvent, FramePhase, FrameSync, MAX_FRAMES_IN_FLIGHT};

fn run_frame(sync: &mut FrameSync, image: u32) -> Vec<FrameAction> {
    let mut actions = vec![sync.step(FrameEvent::BeginFrame).unwrap()];
    if let FrameAction::WaitForFence { .. } = actions[0] {
        actions.push(sync.step(FrameEvent::FenceSignaled).unwrap());
    }
    let mut next = sync.step(FrameEvent::ImageAcquired { image, suboptimal: false }).unwrap();
    actions.push(next);
    if let FrameAction::WaitForFence { .. } = next {
        next = sync.step(FrameEvent::FenceSignaled).unwrap();
        actions.push(next);
    }
    actions.push(sync.step(FrameEvent::Recorded).unwrap());
    actions.push(sync.step(FrameEvent::Submitted).unwrap());
    actions.push(sync.step(FrameEvent::Presented).unwrap());
    actions
}

#[test]
fn first_frame_runs_without_waiting() {
    let mut sync = FrameSync::new(MAX_FRAMES_IN_FLIGHT, 3);
    let actions = run_frame(&mut sync, 0);
    assert_eq!(
        actions,
        vec![
            FrameAction::AcquireImage { frame: 0 },
            FrameAction::RecordCommands { image: 0 },
            FrameAction::ResetAndSubmit { frame: 0, image: 0 },
            FrameAction::Present { frame: 0, image: 0 },
            FrameAction::FrameComplete,
        ]
    );
    assert_eq!(sync.current_frame(), 1);
    assert_eq!(sync.get_image_in_flight(0), Some(0));
    assert_eq!(sync.phase(), FramePhase::Idle);
}

#[test]
fn frame_index_wraps_modulo_slots() {
    let mut sync = FrameSync::new(MAX_FRAMES_IN_FLIGHT, 3);
    run_frame(&mut sync, 0);
    run_frame(&mut sync, 1);
    assert_eq!(sync.current_frame(), 0);
    let mut three = FrameSync::new(3, 3);
    run_frame(&mut three, 0);
    run_frame(&mut three, 1);
    assert_eq!(three.current_frame(), 2);
    run_frame(&mut three, 2);
    assert_eq!(three.current_frame(), 0);
}

#[test]
fn slot_fence_waited_before_reuse() {
    let mut sync = FrameSync::new(MAX_FRAMES_IN_FLIGHT, 3);
    run_frame(&mut sync, 0);
    run_frame(&mut sync, 1);
    let actions = run_frame(&mut sync, 2);
    assert_eq!(actions[0], FrameAction::WaitForFence { fence: 0 });
    assert_eq!(actions[1], FrameAction::AcquireImage { frame: 0 });
    assert_eq!(actions[3], FrameAction::ResetAndSubmit { frame: 0, image: 2 });
}

#[test]
fn acquired_image_with_pending_fence_blocks() {
    let mut sync = FrameSync::new(MAX_FRAMES_IN_FLIGHT, 3);
    run_frame(&mut sync, 0);
    run_frame(&mut sync, 2);
    assert_eq!(sync.get_image_in_flight(2), Some(1));
    assert_eq!(sync.step(FrameEvent::BeginFrame), Ok(FrameAction::WaitForFence { fence: 0 }));
    assert_eq!(sync.step(FrameEvent::FenceSignaled), Ok(FrameAction::AcquireImage { frame: 0 }));
    assert_eq!(sync.step(FrameEvent::ImageAcquired { image: 2, suboptimal: false }), Ok(FrameAction::WaitForFence { fence: 1 }));
    assert_eq!(sync.phase(), FramePhase::WaitingImageFence { image: 2, fence: 1 });
    assert_eq!(sync.step(FrameEvent::Recorded), Err(FrameError::UnexpectedEvent));
    assert_eq!(sync.step(FrameEvent::FenceSignaled), Ok(FrameAction::RecordCommands { image: 2 }));
    assert_eq!(sync.get_image_in_flight(2), Some(0));
}

#[test]
fn out_of_date_swapchain_is_distinct_from_fatal() {
    let mut sync = FrameSync::new(MAX_FRAMES_IN_FLIGHT, 2);
    assert_eq!(sync.step(FrameEvent::BeginFrame), Ok(FrameAction::AcquireImage { frame: 0 }));
    assert_eq!(sync.step(FrameEvent::SwapchainOutOfDate), Ok(FrameAction::RebuildSwapchain));
    assert_eq!(sync.phase(), FramePhase::Idle);
    assert_eq!(sync.current_frame(), 0);
    assert_eq!(sync.step(FrameEvent::BeginFrame), Ok(FrameAction::AcquireImage { frame: 0 }));
    assert_eq!(sync.step(FrameEvent::SwapchainSuboptimal), Err(FrameError::UnexpectedEvent));
    assert_eq!(sync.step(FrameEvent::DeviceLost), Ok(FrameAction::Abort));
    assert_eq!(sync.phase(), FramePhase::Failed);
    assert_eq!(sync.step(FrameEvent::BeginFrame), Err(FrameError::UnexpectedEvent));
}

#[test]
fn image_index_out_of_range_aborts() {
    let mut sync = FrameSync::new(MAX_FRAMES_IN_FLIGHT, 2);
    sync.step(FrameEvent::BeginFrame).unwrap();
    assert_eq!(sync.step(FrameEvent::ImageAcquired { image: 2, suboptimal: false }), Ok(FrameAction::Abort));
    assert_eq!(sync.phase(), FramePhase::Failed);
}

#[test]
fn unexpected_event_changes_nothing() {
    let mut sync = FrameSync::new(MAX_FRAMES_IN_FLIGHT, 2);
    assert_eq!(sync.step(FrameEvent::Presented), Err(FrameError::UnexpectedEvent));
    assert_eq!(sync.phase(), FramePhase::Idle);
    assert_eq!(sync.current_frame(), 0);
}

#[test]
fn present_out_of_date_still_advances() {
    let mut sync = FrameSync::new(MAX_FRAMES_IN_FLIGHT, 2);
    sync.step(FrameEvent::BeginFrame).unwrap();
    sync.step(FrameEvent::ImageAcquired { image: 1, suboptimal: false }).unwrap();
    sync.step(FrameEvent::Recorded).unwrap();
    sync.step(FrameEvent::Submitted).unwrap();
    assert_eq!(sync.step(FrameEvent::SwapchainOutOfDate), Ok(FrameAction::RebuildSwapchain));
    assert_eq!(sync.current_frame(), 1);
}

#[test]
fn suboptimal_acquire_finishes_frame_then_asks_rebuild() {
    let mut sync = FrameSync::new(MAX_FRAMES_IN_FLIGHT, 2);
    sync.step(FrameEvent::BeginFrame).unwrap();
    assert_eq!(
        sync.step(FrameEvent::ImageAcquired { image: 1, suboptimal: true }),
        Ok(FrameAction::RecordCommands { image: 1 })
    );
    sync.step(FrameEvent::Recorded).unwrap();
    sync.step(FrameEvent::Submitted).unwrap();
    assert_eq!(sync.step(FrameEvent::Presented), Ok(FrameAction::RebuildSwapchain));
    assert_eq!(sync.current_frame(), 1);
    assert_eq!(run_frame(&mut sync, 0).last(), Some(&FrameAction::FrameComplete));
}
