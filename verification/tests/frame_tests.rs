use frame_engine::errors::{FrameError, FrameErrorCause, FrameStage, Recovery, recovery_for};
use frame_engine::events::{next_loop_action, LoopAction, UserInput};
use frame_engine::frame::{frame_protocol, FenceState, FrameScheduler, FrameStep};
use frame_engine::swapchain::{
    plan_swapchain, CompositeAlpha, Extent2D, FormatDesc, PresentMode, SurfaceCaps,
};

/// One successful frame against the scheduler: the host waits on the
/// slot's fence, resets it, and submits work that will signal it again.
/// The acquire, record and present calls happen between these notes and
/// are simulated here.
fn drive_one_frame(s: &mut FrameScheduler, clear_color: [f32; 4]) -> usize {
    let slot = s.begin_frame();
    s.note_waited(slot);
    s.note_reset(slot);
    // acquire next image; record a clear-only pass with `clear_color`.
    let _ = clear_color;
    s.note_submitted(slot);
    slot
}

#[test]
fn fresh_scheduler_starts_at_slot_zero_with_signaled_fences() {
    let s = FrameScheduler::new(3, 3);
    assert_eq!(s.current_frame, 0);
    assert_eq!(s.frames_in_flight, 3);
    assert_eq!(s.fences.len(), 3);
    assert!(!s.needs_rebuild);
    for k in 0..3 {
        assert_eq!(s.fences[k], FenceState::Signaled);
    }
}

#[test]
fn three_clear_frames_advance_the_slot_by_one_each_wrapping() {
    // An 800x600 surface, resolved through the swapchain policy first.
    let caps = SurfaceCaps {
        max_images: 4,
        min_extent: Extent2D { width: 1, height: 1 },
        max_extent: Extent2D { width: 4096, height: 4096 },
        supports_color_attachment: true,
    };
    let plan = plan_swapchain(
        &caps,
        &None,
        &vec![PresentMode::Mailbox],
        &vec![CompositeAlpha::Opaque],
        Extent2D { width: 800, height: 600 },
    )
    .unwrap();
    assert_eq!(plan.extent, Extent2D { width: 800, height: 600 });
    assert_eq!(plan.image_count, 3);

    let mut s = FrameScheduler::new(3, plan.image_count as usize);
    let clear_color = [0.2f32, 0.4, 0.6, 1.0];
    let first = drive_one_frame(&mut s, clear_color);
    assert_eq!(first, 0);
    assert_eq!(s.current_frame, 1);
    let second = drive_one_frame(&mut s, clear_color);
    assert_eq!(second, 1);
    assert_eq!(s.current_frame, 2);
    let third = drive_one_frame(&mut s, clear_color);
    assert_eq!(third, 2);
    // Wrapped around: the fourth frame reuses slot zero.
    assert_eq!(s.current_frame, 0);
    let fourth = drive_one_frame(&mut s, clear_color);
    assert_eq!(fourth, 0);
}

#[test]
fn slot_sequence_is_periodic_for_two_frames_in_flight() {
    let mut s = FrameScheduler::new(2, 2);
    let mut slots = Vec::new();
    for _ in 0..6 {
        slots.push(drive_one_frame(&mut s, [0.0f32, 0.0, 0.0, 1.0]));
    }
    assert_eq!(slots, vec![0, 1, 0, 1, 0, 1]);
}

#[test]
fn completed_frame_leaves_the_fence_in_flight() {
    let mut s = FrameScheduler::new(2, 2);
    let slot = s.begin_frame();
    s.note_waited(slot);
    assert_eq!(s.fences[slot], FenceState::Consumed);
    s.note_reset(slot);
    assert_eq!(s.fences[slot], FenceState::Unsignaled);
    s.note_submitted(slot);
    assert_eq!(s.fences[slot], FenceState::InFlight);
}

#[test]
fn resize_forces_a_rebuild_then_drawing_resumes() {
    let mut s = FrameScheduler::new(2, 3);
    drive_one_frame(&mut s, [0.2f32, 0.4, 0.6, 1.0]);

    // A resize arrives mid-loop.
    let input = UserInput {
        end_requested: false,
        new_frame_size: Some(Extent2D { width: 1024, height: 768 }),
    };
    let action = next_loop_action(&input);
    assert_eq!(action, LoopAction::Rebuild(Extent2D { width: 1024, height: 768 }));
    s.surface_changed();
    assert!(s.needs_rebuild);

    // The caller rebuilds the swapchain-dependent set at the new extent
    // (two images this time) and the loop resumes successfully.
    s.rebuilt(2);
    assert!(!s.needs_rebuild);
    assert_eq!(s.current_frame, 0);
    assert_eq!(s.image_count, 2);
    let slot = drive_one_frame(&mut s, [0.2f32, 0.4, 0.6, 1.0]);
    assert_eq!(slot, 0);
    assert_eq!(s.current_frame, 1);
}

#[test]
fn out_of_date_acquire_is_transient_other_failures_are_fatal() {
    let mut s = FrameScheduler::new(2, 2);
    let _ = s.begin_frame();
    let e = FrameError { stage: FrameStage::Acquire, cause: FrameErrorCause::OutOfDate };
    assert_eq!(s.frame_failed(&e), Recovery::RebuildSwapchain);
    assert!(s.needs_rebuild);
    s.rebuilt(2);

    let lost = FrameError { stage: FrameStage::Present, cause: FrameErrorCause::SurfaceLost };
    assert_eq!(recovery_for(&lost), Recovery::RebuildSwapchain);
    let other = FrameError { stage: FrameStage::Present, cause: FrameErrorCause::Other };
    assert_eq!(recovery_for(&other), Recovery::Fatal);
    let other_acquire = FrameError { stage: FrameStage::Acquire, cause: FrameErrorCause::Other };
    assert_eq!(recovery_for(&other_acquire), Recovery::Fatal);
}

#[test]
fn close_request_stops_the_loop_and_plain_polls_draw() {
    let close = UserInput { end_requested: true, new_frame_size: None };
    assert_eq!(next_loop_action(&close), LoopAction::Stop);
    // A close request wins even when a resize arrived in the same poll.
    let close_and_resize = UserInput {
        end_requested: true,
        new_frame_size: Some(Extent2D { width: 10, height: 10 }),
    };
    assert_eq!(next_loop_action(&close_and_resize), LoopAction::Stop);
    let idle = UserInput { end_requested: false, new_frame_size: None };
    assert_eq!(next_loop_action(&idle), LoopAction::Draw);
}

#[test]
fn frame_protocol_waits_before_recording_and_presents_last() {
    let steps = frame_protocol();
    assert_eq!(
        steps,
        vec![
            FrameStep::WaitSlotFence,
            FrameStep::ResetSlotFence,
            FrameStep::AcquireImage,
            FrameStep::RecordCommands,
            FrameStep::SubmitQueue,
            FrameStep::PresentImage,
        ]
    );
}

#[test]
fn acquired_image_index_is_checked_against_the_ring() {
    let s = FrameScheduler::new(2, 3);
    assert!(s.image_index_ok(0));
    assert!(s.image_index_ok(2));
    assert!(!s.image_index_ok(3));
}
