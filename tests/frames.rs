use vkrender::frame_sync::{AcquireOutcome, FrameAction, FrameEvent, FramePhase, FrameSync, PresentOutcome, MAX_FRAMES_IN_FLIGHT};
use vkrender::lifecycle::{
    creation_order, shutdown_order, teardown_order, LifecycleError, LifecycleState, PerImageCounts, RebuildTrigger,
    ShutdownStep, SwapchainLifecycle, SwapchainResource,
};
use vkrender::recording::{record_command_buffer, DrawCommand};
use vkrender::swapchain::{Extent2D, ImageSize, SurfaceCapabilities, SurfaceFormat, FORMAT_B8G8R8A8_SRGB};

fn run_frame(s: &mut FrameSync, image_index: u32, status: PresentOutcome) -> Vec<FrameAction> {
    vec![
        s.handle(FrameEvent::Redraw),
        s.handle(FrameEvent::FenceSignaled),
        s.handle(FrameEvent::ImageAcquired { result: AcquireOutcome::Acquired { image_index } }),
        s.handle(FrameEvent::Recorded),
        s.handle(FrameEvent::Presented { status }),
    ]
}

#[test]
fn frame_protocol_order() {
    let mut s = FrameSync::new(MAX_FRAMES_IN_FLIGHT);
    assert_eq!(s.fence_signaled, vec![true, true]);
    let a = run_frame(&mut s, 2, PresentOutcome::Presented);
    assert_eq!(
        a,
        vec![
            FrameAction::WaitFence { slot: 0 },
            FrameAction::AcquireImage { slot: 0 },
            FrameAction::Record { slot: 0, image_index: 2 },
            FrameAction::SubmitAndPresent { slot: 0, image_index: 2 },
            FrameAction::EndFrame { rebuild: false },
        ]
    );
    assert_eq!(s.current_frame, 1);
    assert_eq!(s.fence_signaled, vec![false, true]);
    assert_eq!(s.phase, FramePhase::Idle);
}

#[test]
fn slot_fence_waited_before_reuse() {
    let mut s = FrameSync::new(2);
    run_frame(&mut s, 0, PresentOutcome::Presented);
    run_frame(&mut s, 1, PresentOutcome::Presented);
    assert_eq!(s.current_frame, 0);
    assert_eq!(s.fence_signaled, vec![false, false]);
    assert_eq!(s.handle(FrameEvent::Redraw), FrameAction::WaitFence { slot: 0 });
    // An acquire result before the fence wait returned is not acted on.
    assert_eq!(
        s.handle(FrameEvent::ImageAcquired { result: AcquireOutcome::Acquired { image_index: 0 } }),
        FrameAction::Nothing
    );
    assert_eq!(s.handle(FrameEvent::FenceSignaled), FrameAction::AcquireImage { slot: 0 });
    assert_eq!(s.fence_signaled, vec![true, false]);
    assert_eq!(
        s.handle(FrameEvent::ImageAcquired { result: AcquireOutcome::Acquired { image_index: 0 } }),
        FrameAction::Record { slot: 0, image_index: 0 }
    );
    assert_eq!(s.fence_signaled, vec![false, false]);
}

#[test]
fn acquire_out_of_date_drops_frame() {
    let mut s = FrameSync::new(2);
    s.handle(FrameEvent::Redraw);
    s.handle(FrameEvent::FenceSignaled);
    let a = s.handle(FrameEvent::ImageAcquired { result: AcquireOutcome::OutOfDate });
    assert_eq!(a, FrameAction::RebuildAndRetry);
    assert_eq!(s.current_frame, 0);
    assert_eq!(s.fence_signaled, vec![true, true]);
    assert_eq!(s.phase, FramePhase::Idle);
    assert_eq!(s.handle(FrameEvent::Redraw), FrameAction::WaitFence { slot: 0 });
}

#[test]
fn present_statuses_trigger_rebuild() {
    let mut s = FrameSync::new(2);
    assert_eq!(run_frame(&mut s, 0, PresentOutcome::Suboptimal)[4], FrameAction::EndFrame { rebuild: true });
    assert_eq!(run_frame(&mut s, 1, PresentOutcome::OutOfDate)[4], FrameAction::EndFrame { rebuild: true });
    assert_eq!(s.current_frame, 0);
    assert_eq!(s.handle(FrameEvent::Resized), FrameAction::Nothing);
    assert!(s.framebuffer_resized);
    assert_eq!(run_frame(&mut s, 2, PresentOutcome::Presented)[4], FrameAction::EndFrame { rebuild: true });
    assert!(!s.framebuffer_resized);
    assert_eq!(run_frame(&mut s, 0, PresentOutcome::Presented)[4], FrameAction::EndFrame { rebuild: false });
}

#[test]
fn failures_are_fatal() {
    let mut s = FrameSync::new(2);
    s.handle(FrameEvent::Redraw);
    s.handle(FrameEvent::FenceSignaled);
    assert_eq!(s.handle(FrameEvent::ImageAcquired { result: AcquireOutcome::Failed }), FrameAction::Fatal);
    assert_eq!(s.phase, FramePhase::Halted);
    assert_eq!(s.handle(FrameEvent::Redraw), FrameAction::Nothing);
    let mut t = FrameSync::new(3);
    assert_eq!(run_frame(&mut t, 0, PresentOutcome::Failed)[4], FrameAction::Fatal);
    assert_eq!(t.current_frame, 0);
}

#[test]
fn slot_index_independent_of_image_index() {
    let mut s = FrameSync::new(3);
    for expected in [1usize, 2, 0, 1] {
        run_frame(&mut s, 5, PresentOutcome::Presented);
        assert_eq!(s.current_frame, expected);
    }
}

fn counts(n: usize) -> PerImageCounts {
    PerImageCounts { framebuffers: n, command_buffers: n, descriptor_sets: n, uniform_buffers: n }
}

fn free_caps() -> SurfaceCapabilities {
    SurfaceCapabilities {
        current_extent: Extent2D { width: u32::MAX, height: u32::MAX },
        min_image_extent: Extent2D { width: 1, height: 1 },
        max_image_extent: Extent2D { width: 1920, height: 1080 },
        min_image_count: 2,
        max_image_count: 0,
    }
}

fn formats() -> Vec<SurfaceFormat> {
    vec![SurfaceFormat { format: FORMAT_B8G8R8A8_SRGB, color_space: 0 }]
}

#[test]
fn resize_rebuild_clamps_extent() {
    let mut l = SwapchainLifecycle::created(Extent2D { width: 800, height: 600 }, 3, counts(3)).unwrap();
    assert_eq!(l.state, LifecycleState::Active);
    assert!(l.request_rebuild(RebuildTrigger::Resized));
    assert_eq!(l.state, LifecycleState::Rebuilding);
    assert_eq!(
        l.plan_rebuild(&free_caps(), &formats(), &vec![2], &ImageSize { width: 2560, height: 700 }, 0, 0).unwrap_err(),
        LifecycleError::NotTornDown
    );
    assert_eq!(l.torn_down(), Ok(()));
    assert_eq!(l.live_swapchains, 0);
    assert_eq!(l.counts.framebuffers, 0);
    assert_eq!(l.counts.command_buffers, 0);
    assert_eq!(l.counts.descriptor_sets, 3);
    let plan = l.plan_rebuild(&free_caps(), &formats(), &vec![2], &ImageSize { width: 2560, height: 700 }, 0, 0).unwrap();
    assert_eq!(plan.extent, Extent2D { width: 1920, height: 700 });
    assert_eq!(plan.image_count, 3);
    assert!(!l.descriptor_sets_stale(3));
    assert_eq!(l.finish_rebuild(plan.extent, 3, counts(3)), Ok(()));
    assert_eq!(l.state, LifecycleState::Active);
    assert_eq!(l.extent, Extent2D { width: 1920, height: 700 });
}

#[test]
fn per_image_counts_checked() {
    let mut bad = counts(3);
    bad.command_buffers = 2;
    assert_eq!(SwapchainLifecycle::created(Extent2D { width: 1, height: 1 }, 3, bad), Err(LifecycleError::CountMismatch));
    let mut l = SwapchainLifecycle::created(Extent2D { width: 1, height: 1 }, 3, counts(3)).unwrap();
    l.request_rebuild(RebuildTrigger::PresentOutOfDate);
    l.torn_down().unwrap();
    assert!(l.descriptor_sets_stale(4));
    let before = l;
    assert_eq!(l.finish_rebuild(Extent2D { width: 1, height: 1 }, 4, counts(3)), Err(LifecycleError::CountMismatch));
    assert_eq!(l, before);
    assert_eq!(l.finish_rebuild(Extent2D { width: 1, height: 1 }, 4, counts(4)), Ok(()));
    assert_eq!(l.image_count, 4);
    assert_eq!(l.counts, counts(4));
}

#[test]
fn two_rapid_rebuilds_leave_one_swapchain() {
    let mut l = SwapchainLifecycle::created(Extent2D { width: 800, height: 600 }, 2, counts(2)).unwrap();
    assert!(l.request_rebuild(RebuildTrigger::Resized));
    assert!(!l.request_rebuild(RebuildTrigger::Resized));
    l.torn_down().unwrap();
    assert_eq!(l.torn_down(), Err(LifecycleError::AlreadyTornDown));
    l.finish_rebuild(Extent2D { width: 640, height: 480 }, 2, counts(2)).unwrap();
    assert!(l.request_rebuild(RebuildTrigger::AcquireOutOfDate));
    l.torn_down().unwrap();
    l.finish_rebuild(Extent2D { width: 320, height: 240 }, 2, counts(2)).unwrap();
    assert_eq!(l.state, LifecycleState::Active);
    assert_eq!(l.live_swapchains, 1);
    assert_eq!(l.counts, counts(2));
    assert_eq!(l.extent, Extent2D { width: 320, height: 240 });
}

#[test]
fn lifecycle_steps_out_of_order() {
    let mut l = SwapchainLifecycle::created(Extent2D { width: 1, height: 1 }, 1, counts(1)).unwrap();
    assert_eq!(l.torn_down(), Err(LifecycleError::NotRebuilding));
    assert_eq!(l.finish_rebuild(Extent2D { width: 1, height: 1 }, 1, counts(1)), Err(LifecycleError::NotRebuilding));
    assert_eq!(
        l.plan_rebuild(&free_caps(), &formats(), &vec![], &ImageSize { width: 1, height: 1 }, 0, 0).unwrap_err(),
        LifecycleError::NotRebuilding
    );
    l.request_rebuild(RebuildTrigger::PresentSuboptimal);
    assert_eq!(l.finish_rebuild(Extent2D { width: 1, height: 1 }, 1, counts(1)), Err(LifecycleError::NotTornDown));
}

#[test]
fn teardown_and_creation_orders() {
    let t = teardown_order();
    assert_eq!(t.len(), 9);
    assert_eq!(t[0], SwapchainResource::DepthBuffer);
    assert_eq!(t[3], SwapchainResource::Framebuffers);
    assert_eq!(t[8], SwapchainResource::Swapchain);
    let c = creation_order();
    assert_eq!(c[0], SwapchainResource::Swapchain);
    assert_eq!(c[7], SwapchainResource::Framebuffers);
    assert_eq!(c[8], SwapchainResource::CommandBuffers);
}

#[test]
fn command_buffer_for_two_instances() {
    let cmds = record_command_buffer(1, &vec![36, 12]);
    assert_eq!(
        cmds,
        vec![
            DrawCommand::BeginCommandBuffer,
            DrawCommand::BeginRenderPass { image_index: 1 },
            DrawCommand::BindPipeline,
            DrawCommand::BindVertexBuffer,
            DrawCommand::BindIndexBuffer,
            DrawCommand::BindDescriptorSet { image_index: 1 },
            DrawCommand::PushModelMatrix { instance: 0 },
            DrawCommand::DrawIndexed { index_count: 36 },
            DrawCommand::PushModelMatrix { instance: 1 },
            DrawCommand::DrawIndexed { index_count: 12 },
            DrawCommand::EndRenderPass,
            DrawCommand::EndCommandBuffer,
        ]
    );
    assert_eq!(record_command_buffer(0, &Vec::new()).len(), 8);
}

#[test]
fn shutdown_waits_for_idle_first() {
    let steps = shutdown_order();
    assert_eq!(steps.len(), 15);
    assert_eq!(steps[0], ShutdownStep::WaitDeviceIdle);
    assert_eq!(steps.iter().filter(|s| **s == ShutdownStep::WaitDeviceIdle).count(), 1);
    let device = steps.iter().position(|s| *s == ShutdownStep::Device).unwrap();
    let pool = steps.iter().position(|s| *s == ShutdownStep::CommandPool).unwrap();
    assert!(pool < device);
    assert_eq!(steps[14], ShutdownStep::Instance);
}
