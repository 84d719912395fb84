use nice_gfx::command::Command;
use nice_gfx::device::{DeviceContext, Opening, Selection};
use nice_gfx::error::Error;
use nice_gfx::format::Format;
use nice_gfx::frame::{FrameAction, FrameEvent, LoopControl, Phase, WindowEvent};
use nice_gfx::hal_state::HalState;
use nice_gfx::pass::{ImageViewDesc, RenderPassDesc};
use nice_gfx::recorder::{Recording, Submission};
use nice_gfx::surface::{
    CompositeAlpha, Extent, Extent2D, PresentMode, Rect, SurfaceCapabilities, SwapchainConfig,
};

fn frame_device() -> DeviceContext {
    DeviceContext::open(Selection { adapter: 0, family: 0, family_id: 0, queues: 1 }, Opening::WithQueues(1)).unwrap()
}

fn frame_caps(max_image_count: u32, width: u32, height: u32) -> SurfaceCapabilities {
    SurfaceCapabilities {
        min_image_count: 1,
        max_image_count,
        min_extent: Extent2D { width: 1, height: 1 },
        max_extent: Extent2D { width, height },
        usage: 0x10,
    }
}

fn frame_state(modes: &Vec<PresentMode>, max_image_count: u32, images: usize) -> HalState {
    let (mut hal, _) = HalState::new(
        frame_device(),
        &frame_caps(max_image_count, 800, 600),
        &None,
        modes,
        &vec![CompositeAlpha::Opaque],
    )
    .unwrap();
    hal.swapchain_created(images);
    hal
}

fn run_frame(hal: &mut HalState, image: u32) {
    assert!(matches!(hal.draw_clear_frame(), FrameAction::Acquire { .. }));
    assert!(matches!(
        hal.advance(FrameEvent::ImageAcquired { image, suboptimal: false }),
        Ok(FrameAction::Record(_))
    ));
    assert!(matches!(hal.advance(FrameEvent::Recorded), Ok(FrameAction::Submit(_))));
    assert!(matches!(hal.advance(FrameEvent::Submitted), Ok(FrameAction::Present { .. })));
    assert_eq!(hal.advance(FrameEvent::Presented { suboptimal: false }), Ok(FrameAction::Nothing));
}

#[test]
fn startup_creates_swapchain_slots_and_pool() {
    let (hal, plan) = HalState::new(
        frame_device(),
        &frame_caps(3, 800, 600),
        &None,
        &vec![PresentMode::Fifo],
        &vec![CompositeAlpha::Opaque],
    )
    .unwrap();
    let config = SwapchainConfig {
        present_mode: PresentMode::Fifo,
        composite_alpha: CompositeAlpha::Opaque,
        format: Format { code: 43 },
        extent: Extent2D { width: 800, height: 600 },
        image_count: 2,
        image_layers: 1,
        image_usage: 0x10,
    };
    assert_eq!(
        plan,
        vec![
            Command::CreateSwapchain(config),
            Command::CreateFence { slot: 0 },
            Command::CreateImageAvailable { slot: 0 },
            Command::CreateRenderFinished { slot: 0 },
            Command::CreateFence { slot: 1 },
            Command::CreateImageAvailable { slot: 1 },
            Command::CreateRenderFinished { slot: 1 },
            Command::CreateCommandPool { individual_reset: true },
        ]
    );
    assert_eq!(hal.phase(), Phase::Rebuilding);
    assert_eq!(hal.config(), Some(config));
    assert_eq!(hal.current_frame(), 0);
    assert_eq!(hal.frames_in_flight(), 2);
    assert_eq!(hal.render_area(), Rect { x: 0, y: 0, w: 800, h: 600 });
    assert_eq!(hal.image_count(), 0);
    assert_eq!(hal.command_buffer_count(), 0);
    assert_eq!(hal.device(), frame_device());
}

#[test]
fn startup_fails_with_the_error_of_the_selection() {
    let caps = frame_caps(3, 800, 600);
    let alphas = vec![CompositeAlpha::Opaque];
    let modes = vec![PresentMode::Fifo];
    assert_eq!(
        HalState::new(frame_device(), &caps, &None, &vec![], &alphas).err(),
        Some(Error::NoPresentMode)
    );
    assert_eq!(
        HalState::new(frame_device(), &caps, &None, &modes, &vec![]).err(),
        Some(Error::NoCompositeAlpha)
    );
    assert_eq!(
        HalState::new(frame_device(), &caps, &Some(vec![]), &modes, &alphas).err(),
        Some(Error::EmptyFormatList)
    );
    let mut dull = caps;
    dull.usage = 0x0F;
    assert_eq!(
        HalState::new(frame_device(), &dull, &None, &modes, &alphas).err(),
        Some(Error::SurfaceNotColorCapable)
    );
}

#[test]
fn swapchain_created_builds_per_image_objects() {
    let (mut hal, _) = HalState::new(
        frame_device(),
        &frame_caps(3, 64, 32),
        &None,
        &vec![PresentMode::Fifo],
        &vec![CompositeAlpha::Opaque],
    )
    .unwrap();
    let plan = hal.swapchain_created(3);
    let view = ImageViewDesc::for_format(Format::new(43));
    let extent = Extent { width: 64, height: 32, depth: 1 };
    assert_eq!(
        plan,
        vec![
            Command::CreateRenderPass(RenderPassDesc::for_format(Format::new(43))),
            Command::CreateImageView { image: 0, desc: view },
            Command::CreateImageView { image: 1, desc: view },
            Command::CreateImageView { image: 2, desc: view },
            Command::CreateFramebuffer { image_view: 0, extent },
            Command::CreateFramebuffer { image_view: 1, extent },
            Command::CreateFramebuffer { image_view: 2, extent },
            Command::AllocateCommandBuffer { index: 0 },
            Command::AllocateCommandBuffer { index: 1 },
            Command::AllocateCommandBuffer { index: 2 },
        ]
    );
    assert_eq!(hal.phase(), Phase::Idle);
    assert_eq!(hal.image_count(), 3);
    assert_eq!(hal.image_view_count(), 3);
    assert_eq!(hal.framebuffer_count(), 3);
    assert_eq!(hal.command_buffer_count(), 3);
    assert_eq!(hal.frames_in_flight(), 2);
}

#[test]
fn frame_runs_through_its_phases() {
    let mut hal = frame_state(&vec![PresentMode::Fifo], 3, 2);
    assert_eq!(hal.phase(), Phase::Idle);
    assert_eq!(
        hal.draw_clear_frame(),
        FrameAction::Acquire { fence: 0, image_available: 0, wait: true, reset: true, timeout_ns: u64::MAX }
    );
    assert_eq!(hal.phase(), Phase::Acquiring { slot: 0 });
    assert_eq!(hal.current_frame(), 1);
    assert_eq!(
        hal.advance(FrameEvent::ImageAcquired { image: 1, suboptimal: false }),
        Ok(FrameAction::Record(Recording {
            command_buffer: 1,
            framebuffer: 1,
            one_time_submit: true,
            render_area: Rect { x: 0, y: 0, w: 800, h: 600 },
            clear_values: 1,
            draw: None,
        }))
    );
    assert_eq!(hal.phase(), Phase::Recording { slot: 0, image: 1 });
    assert_eq!(
        hal.advance(FrameEvent::Recorded),
        Ok(FrameAction::Submit(Submission {
            command_buffer: 1,
            wait_on: 0,
            wait_stage: 0x400,
            signal: 0,
            fence: 0,
        }))
    );
    assert_eq!(hal.phase(), Phase::Submitted { slot: 0, image: 1 });
    assert_eq!(
        hal.advance(FrameEvent::Submitted),
        Ok(FrameAction::Present { image: 1, wait_on: 0 })
    );
    assert_eq!(hal.phase(), Phase::Presenting { slot: 0, image: 1 });
    assert_eq!(hal.advance(FrameEvent::Presented { suboptimal: false }), Ok(FrameAction::Nothing));
    assert_eq!(hal.phase(), Phase::Idle);
}

#[test]
fn counter_moves_on_before_anything_can_fail() {
    let mut hal = frame_state(&vec![PresentMode::Fifo], 3, 2);
    hal.draw_clear_frame();
    assert_eq!(hal.current_frame(), 1);
    assert_eq!(hal.advance(FrameEvent::FenceWaitFailed), Err(Error::FenceWaitError));
    assert_eq!(hal.current_frame(), 1);
    assert_eq!(hal.phase(), Phase::Idle);
    assert_eq!(
        hal.draw_clear_frame(),
        FrameAction::Acquire { fence: 1, image_available: 1, wait: true, reset: true, timeout_ns: u64::MAX }
    );
}

#[test]
fn failed_fence_wait_costs_the_frame_only() {
    let mut hal = frame_state(&vec![PresentMode::Fifo], 3, 2);
    hal.draw_clear_frame();
    assert_eq!(hal.advance(FrameEvent::FenceWaitFailed), Err(Error::FenceWaitError));
    assert_eq!(hal.phase(), Phase::Idle);
    assert_eq!(hal.advance(FrameEvent::Recorded), Ok(FrameAction::Nothing));
    assert_eq!(hal.advance(FrameEvent::Submitted), Ok(FrameAction::Nothing));
    run_frame(&mut hal, 0);
    assert_eq!(
        hal.draw_clear_frame(),
        FrameAction::Acquire { fence: 0, image_available: 0, wait: true, reset: true, timeout_ns: u64::MAX }
    );
}

#[test]
fn failed_fence_reset_costs_the_frame_only() {
    let mut hal = frame_state(&vec![PresentMode::Fifo], 3, 2);
    hal.draw_clear_frame();
    assert_eq!(hal.advance(FrameEvent::FenceResetFailed), Err(Error::FenceResetError));
    assert_eq!(hal.phase(), Phase::Idle);
    run_frame(&mut hal, 1);
    assert_eq!(
        hal.draw_clear_frame(),
        FrameAction::Acquire {
            fence: 0,
            image_available: 0,
            wait: false,
            reset: true,
            timeout_ns: u64::MAX
        }
    );
    hal.advance(FrameEvent::ImageAcquired { image: 0, suboptimal: false }).unwrap();
    hal.advance(FrameEvent::Recorded).unwrap();
    hal.advance(FrameEvent::Submitted).unwrap();
    hal.advance(FrameEvent::Presented { suboptimal: false }).unwrap();
    run_frame(&mut hal, 1);
    assert_eq!(
        hal.draw_clear_frame(),
        FrameAction::Acquire {
            fence: 0,
            image_available: 0,
            wait: true,
            reset: true,
            timeout_ns: u64::MAX
        }
    );
}

#[test]
fn failed_acquisition_asks_for_a_rebuild() {
    let mut hal = frame_state(&vec![PresentMode::Fifo], 3, 2);
    hal.draw_clear_frame();
    assert_eq!(hal.advance(FrameEvent::AcquireFailed), Err(Error::ImageAcquisitionFailed));
    assert_eq!(hal.phase(), Phase::NeedsRebuild);
    assert_eq!(hal.draw_clear_frame(), FrameAction::Rebuild);
    assert_eq!(hal.phase(), Phase::NeedsRebuild);
}

#[test]
fn suboptimal_acquisition_asks_for_a_rebuild() {
    let mut hal = frame_state(&vec![PresentMode::Fifo], 3, 2);
    hal.draw_clear_frame();
    assert_eq!(
        hal.advance(FrameEvent::ImageAcquired { image: 0, suboptimal: true }),
        Err(Error::ImageAcquisitionFailed)
    );
    assert_eq!(hal.phase(), Phase::NeedsRebuild);
}

#[test]
fn image_outside_the_swapchain_asks_for_a_rebuild() {
    let mut hal = frame_state(&vec![PresentMode::Fifo], 3, 2);
    hal.draw_clear_frame();
    assert_eq!(
        hal.advance(FrameEvent::ImageAcquired { image: 2, suboptimal: false }),
        Err(Error::ImageAcquisitionFailed)
    );
    assert_eq!(hal.phase(), Phase::NeedsRebuild);
}

#[test]
fn failed_presentation_asks_for_a_rebuild() {
    let mut hal = frame_state(&vec![PresentMode::Fifo], 3, 2);
    hal.draw_clear_frame();
    hal.advance(FrameEvent::ImageAcquired { image: 0, suboptimal: false }).unwrap();
    hal.advance(FrameEvent::Recorded).unwrap();
    hal.advance(FrameEvent::Submitted).unwrap();
    assert_eq!(hal.advance(FrameEvent::PresentFailed), Err(Error::PresentFailed));
    assert_eq!(hal.phase(), Phase::NeedsRebuild);
}

#[test]
fn suboptimal_presentation_asks_for_a_rebuild() {
    let mut hal = frame_state(&vec![PresentMode::Fifo], 3, 2);
    hal.draw_clear_frame();
    hal.advance(FrameEvent::ImageAcquired { image: 0, suboptimal: false }).unwrap();
    hal.advance(FrameEvent::Recorded).unwrap();
    hal.advance(FrameEvent::Submitted).unwrap();
    assert_eq!(
        hal.advance(FrameEvent::Presented { suboptimal: true }),
        Err(Error::PresentFailed)
    );
    assert_eq!(hal.phase(), Phase::NeedsRebuild);
}

#[test]
fn reports_out_of_turn_change_nothing() {
    let mut hal = frame_state(&vec![PresentMode::Fifo], 3, 2);
    assert_eq!(hal.advance(FrameEvent::Presented { suboptimal: false }), Ok(FrameAction::Nothing));
    assert_eq!(hal.advance(FrameEvent::AcquireFailed), Ok(FrameAction::Nothing));
    assert_eq!(hal.phase(), Phase::Idle);
    hal.draw_clear_frame();
    assert_eq!(hal.advance(FrameEvent::Recorded), Ok(FrameAction::Nothing));
    assert_eq!(hal.advance(FrameEvent::PresentFailed), Ok(FrameAction::Nothing));
    assert_eq!(hal.phase(), Phase::Acquiring { slot: 0 });
    assert_eq!(hal.draw_clear_frame(), FrameAction::Nothing);
    assert_eq!(hal.phase(), Phase::Acquiring { slot: 0 });
    assert_eq!(hal.current_frame(), 1);
}

#[test]
fn rotation_has_the_period_of_the_frames_in_flight() {
    for (modes, max, period) in [
        (vec![PresentMode::Fifo], 2u32, 1usize),
        (vec![PresentMode::Fifo], 3, 2),
        (vec![PresentMode::Mailbox], 5, 3),
    ] {
        let mut hal = frame_state(&modes, max, 4);
        assert_eq!(hal.frames_in_flight(), period);
        for frame in 0..25usize {
            assert_eq!(hal.current_frame(), frame % period);
            run_frame(&mut hal, (frame % 4) as u32);
        }
        assert_eq!(hal.current_frame(), 25 % period);
    }
}

#[test]
fn reset_fence_is_not_waited_on_again() {
    let mut hal = frame_state(&vec![PresentMode::Fifo], 3, 2);
    assert_eq!(
        hal.draw_clear_frame(),
        FrameAction::Acquire { fence: 0, image_available: 0, wait: true, reset: true, timeout_ns: u64::MAX }
    );
    assert_eq!(hal.advance(FrameEvent::AcquireFailed), Err(Error::ImageAcquisitionFailed));
    let caps = frame_caps(3, 800, 600);
    hal.recreate_swapchain(&caps, &None, &vec![PresentMode::Fifo], &vec![CompositeAlpha::Opaque])
        .unwrap();
    hal.swapchain_created(2);
    assert_eq!(hal.current_frame(), 0);
    assert_eq!(
        hal.draw_clear_frame(),
        FrameAction::Acquire { fence: 0, image_available: 0, wait: false, reset: false, timeout_ns: u64::MAX }
    );
    hal.advance(FrameEvent::ImageAcquired { image: 0, suboptimal: false }).unwrap();
    hal.advance(FrameEvent::Recorded).unwrap();
    hal.advance(FrameEvent::Submitted).unwrap();
    hal.advance(FrameEvent::Presented { suboptimal: false }).unwrap();
    run_frame(&mut hal, 1);
    assert_eq!(
        hal.draw_clear_frame(),
        FrameAction::Acquire { fence: 0, image_available: 0, wait: true, reset: true, timeout_ns: u64::MAX }
    );
}

#[test]
fn window_events_close_rebuild_or_pass() {
    let mut hal = frame_state(&vec![PresentMode::Fifo], 3, 2);
    assert_eq!(hal.observe(WindowEvent::KeyPressed { code: 30 }), LoopControl::Continue);
    assert_eq!(hal.observe(WindowEvent::PointerMoved { x: 5, y: -7 }), LoopControl::Continue);
    assert_eq!(hal.phase(), Phase::Idle);
    assert_eq!(hal.observe(WindowEvent::CloseRequested), LoopControl::Exit);
    assert_eq!(hal.phase(), Phase::Idle);
    let extent = Extent2D { width: 10, height: 10 };
    for event in
        [WindowEvent::Resized { extent }, WindowEvent::DpiChanged, WindowEvent::RefreshDamaged]
    {
        let mut hal = frame_state(&vec![PresentMode::Fifo], 3, 2);
        assert!(event.needs_rebuild());
        assert_eq!(hal.observe(event), LoopControl::Continue);
        assert_eq!(hal.phase(), Phase::NeedsRebuild);
        assert_eq!(hal.observe(event), LoopControl::Continue);
        assert_eq!(hal.phase(), Phase::NeedsRebuild);
    }
    assert!(!WindowEvent::CloseRequested.needs_rebuild());
    assert!(!WindowEvent::KeyPressed { code: 1 }.needs_rebuild());
}

#[test]
fn frame_under_way_is_finished_before_the_rebuild() {
    let mut hal = frame_state(&vec![PresentMode::Fifo], 3, 2);
    hal.draw_clear_frame();
    hal.advance(FrameEvent::ImageAcquired { image: 0, suboptimal: false }).unwrap();
    hal.invalidate();
    assert_eq!(hal.phase(), Phase::Recording { slot: 0, image: 0 });
    assert!(matches!(hal.advance(FrameEvent::Recorded), Ok(FrameAction::Submit(_))));
    assert!(matches!(hal.advance(FrameEvent::Submitted), Ok(FrameAction::Present { .. })));
    assert_eq!(hal.advance(FrameEvent::Presented { suboptimal: false }), Ok(FrameAction::Nothing));
    assert_eq!(hal.phase(), Phase::NeedsRebuild);
    assert_eq!(hal.draw_clear_frame(), FrameAction::Rebuild);
}

#[test]
fn rebuild_tears_down_then_creates() {
    let mut hal = frame_state(&vec![PresentMode::Fifo], 3, 2);
    hal.invalidate();
    let caps = frame_caps(3, 1024, 768);
    let plan = hal
        .recreate_swapchain(
            &caps,
            &Some(vec![Format::new(44), Format::new(50)]),
            &vec![PresentMode::Fifo],
            &vec![CompositeAlpha::Inherit],
        )
        .unwrap();
    let config = SwapchainConfig {
        present_mode: PresentMode::Fifo,
        composite_alpha: CompositeAlpha::Inherit,
        format: Format { code: 50 },
        extent: Extent2D { width: 1024, height: 768 },
        image_count: 2,
        image_layers: 1,
        image_usage: 0x10,
    };
    assert_eq!(
        plan,
        vec![
            Command::WaitIdle,
            Command::ResetCommandPool,
            Command::DestroyFramebuffer { index: 0 },
            Command::DestroyFramebuffer { index: 1 },
            Command::DestroyRenderPass,
            Command::DestroyImageView { index: 0 },
            Command::DestroyImageView { index: 1 },
            Command::DestroySwapchain,
            Command::CreateSwapchain(config),
        ]
    );
    assert_eq!(hal.phase(), Phase::Rebuilding);
    assert_eq!(hal.render_area(), Rect { x: 0, y: 0, w: 1024, h: 768 });
    assert_eq!(hal.image_count(), 0);
    assert_eq!(hal.image_view_count(), 0);
    assert_eq!(hal.framebuffer_count(), 0);
    assert_eq!(hal.draw_clear_frame(), FrameAction::Nothing);
    let plan = hal.swapchain_created(3);
    let view = ImageViewDesc::for_format(Format::new(50));
    let extent = Extent { width: 1024, height: 768, depth: 1 };
    assert_eq!(
        plan,
        vec![
            Command::CreateRenderPass(RenderPassDesc::for_format(Format::new(50))),
            Command::CreateImageView { image: 0, desc: view },
            Command::CreateImageView { image: 1, desc: view },
            Command::CreateImageView { image: 2, desc: view },
            Command::CreateFramebuffer { image_view: 0, extent },
            Command::CreateFramebuffer { image_view: 1, extent },
            Command::CreateFramebuffer { image_view: 2, extent },
            Command::AllocateCommandBuffer { index: 2 },
        ]
    );
    assert_eq!(hal.phase(), Phase::Idle);
    assert_eq!(hal.image_count(), 3);
    assert_eq!(hal.image_view_count(), 3);
    assert_eq!(hal.framebuffer_count(), 3);
    assert_eq!(hal.command_buffer_count(), 3);
}

#[test]
fn rebuild_with_fewer_images_frees_command_buffers() {
    let mut hal = frame_state(&vec![PresentMode::Fifo], 3, 4);
    hal.invalidate();
    hal.recreate_swapchain(
        &frame_caps(3, 8, 8),
        &None,
        &vec![PresentMode::Fifo],
        &vec![CompositeAlpha::Opaque],
    )
    .unwrap();
    let plan = hal.swapchain_created(2);
    assert_eq!(
        plan[5..].to_vec(),
        vec![Command::FreeCommandBuffer { index: 2 }, Command::FreeCommandBuffer { index: 3 }]
    );
    assert_eq!(hal.command_buffer_count(), 2);
}

#[test]
fn rebuild_changes_the_frame_slots_with_the_image_count() {
    let mut hal = frame_state(&vec![PresentMode::Fifo], 3, 2);
    run_frame(&mut hal, 0);
    hal.invalidate();
    let plan = hal
        .recreate_swapchain(
            &frame_caps(5, 8, 8),
            &None,
            &vec![PresentMode::Mailbox],
            &vec![CompositeAlpha::Opaque],
        )
        .unwrap();
    assert_eq!(plan[7], Command::DestroySwapchain);
    assert_eq!(
        plan[8..11].to_vec(),
        vec![
            Command::CreateFence { slot: 2 },
            Command::CreateImageAvailable { slot: 2 },
            Command::CreateRenderFinished { slot: 2 },
        ]
    );
    assert!(matches!(plan[11], Command::CreateSwapchain(_)));
    assert_eq!(plan.len(), 12);
    assert_eq!(hal.frames_in_flight(), 3);
    assert_eq!(hal.current_frame(), 2);
    hal.swapchain_created(3);
    hal.invalidate();
    let plan = hal
        .recreate_swapchain(
            &frame_caps(2, 8, 8),
            &None,
            &vec![PresentMode::Mailbox],
            &vec![CompositeAlpha::Opaque],
        )
        .unwrap();
    assert_eq!(plan[0], Command::WaitIdle);
    assert_eq!(plan[9], Command::DestroySwapchain);
    assert_eq!(plan.len(), 17);
    assert_eq!(
        plan[10..16].to_vec(),
        vec![
            Command::DestroyFence { slot: 1 },
            Command::DestroyImageAvailable { slot: 1 },
            Command::DestroyRenderFinished { slot: 1 },
            Command::DestroyFence { slot: 2 },
            Command::DestroyImageAvailable { slot: 2 },
            Command::DestroyRenderFinished { slot: 2 },
        ]
    );
    assert_eq!(hal.frames_in_flight(), 1);
    assert_eq!(hal.current_frame(), 0);
}

#[test]
fn failed_selection_leaves_the_state_as_it_was() {
    let mut hal = frame_state(&vec![PresentMode::Fifo], 3, 2);
    run_frame(&mut hal, 0);
    hal.invalidate();
    let result = hal.recreate_swapchain(
        &frame_caps(3, 8, 8),
        &None,
        &vec![],
        &vec![CompositeAlpha::Opaque],
    );
    assert_eq!(result, Err(Error::NoPresentMode));
    assert_eq!(hal.phase(), Phase::NeedsRebuild);
    assert_eq!(hal.image_count(), 2);
    assert_eq!(hal.image_view_count(), 2);
    assert_eq!(hal.framebuffer_count(), 2);
    assert_eq!(hal.current_frame(), 1);
    assert_eq!(hal.render_area(), Rect { x: 0, y: 0, w: 800, h: 600 });
}

#[test]
fn resize_during_rebuild_asks_for_another() {
    let mut hal = frame_state(&vec![PresentMode::Fifo], 3, 2);
    hal.invalidate();
    hal.recreate_swapchain(
        &frame_caps(3, 8, 8),
        &None,
        &vec![PresentMode::Fifo],
        &vec![CompositeAlpha::Opaque],
    )
    .unwrap();
    assert_eq!(
        hal.observe(WindowEvent::Resized { extent: Extent2D { width: 9, height: 9 } }),
        LoopControl::Continue
    );
    assert_eq!(hal.phase(), Phase::Rebuilding);
    hal.swapchain_created(2);
    assert_eq!(hal.phase(), Phase::NeedsRebuild);
}

#[test]
fn teardown_destroys_everything_in_order() {
    let mut hal = frame_state(&vec![PresentMode::Fifo], 3, 2);
    run_frame(&mut hal, 1);
    assert_eq!(
        hal.teardown(),
        vec![
            Command::WaitIdle,
            Command::WaitIdle,
            Command::ResetCommandPool,
            Command::DestroyFramebuffer { index: 0 },
            Command::DestroyFramebuffer { index: 1 },
            Command::DestroyRenderPass,
            Command::DestroyImageView { index: 0 },
            Command::DestroyImageView { index: 1 },
            Command::DestroySwapchain,
            Command::DestroyFence { slot: 0 },
            Command::DestroyFence { slot: 1 },
            Command::DestroyImageAvailable { slot: 0 },
            Command::DestroyImageAvailable { slot: 1 },
            Command::DestroyRenderFinished { slot: 0 },
            Command::DestroyRenderFinished { slot: 1 },
            Command::DestroyCommandPool,
            Command::DestroyDevice,
            Command::DestroyInstance,
        ]
    );
}

#[test]
fn teardown_before_the_swapchain_is_built_destroys_it_alone() {
    let (hal, _) = HalState::new(
        frame_device(),
        &frame_caps(2, 8, 8),
        &None,
        &vec![PresentMode::Fifo],
        &vec![CompositeAlpha::Opaque],
    )
    .unwrap();
    assert_eq!(
        hal.teardown(),
        vec![
            Command::WaitIdle,
            Command::DestroySwapchain,
            Command::DestroyFence { slot: 0 },
            Command::DestroyImageAvailable { slot: 0 },
            Command::DestroyRenderFinished { slot: 0 },
            Command::DestroyCommandPool,
            Command::DestroyDevice,
            Command::DestroyInstance,
        ]
    );
}
