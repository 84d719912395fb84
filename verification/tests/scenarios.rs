use nice_gfx::command::Command;
use nice_gfx::device::{select_adapter, Adapter, DeviceContext, Opening, QueueFamily};
use nice_gfx::error::Error;
use nice_gfx::format::{Format, RGBA8_SRGB, RGBA8_UNORM};
use nice_gfx::frame::{FrameAction, FrameEvent, LoopControl, Phase, WindowEvent};
use nice_gfx::hal_state::HalState;
use nice_gfx::surface::{
    select_image_count, CompositeAlpha, Extent2D, PresentMode, Rect, SurfaceCapabilities,
    SwapchainConfig,
};

fn scenario_device() -> DeviceContext {
    let adapters = vec![Adapter {
        queue_families: vec![QueueFamily {
            id: 0,
            supports_graphics: true,
            supports_surface: true,
            max_queues: 1,
        }],
    }];
    DeviceContext::open(select_adapter(&adapters).unwrap(), Opening::WithQueues(1)).unwrap()
}

fn scenario_caps(max_image_count: u32, width: u32, height: u32) -> SurfaceCapabilities {
    SurfaceCapabilities {
        min_image_count: 2,
        max_image_count,
        min_extent: Extent2D { width, height },
        max_extent: Extent2D { width, height },
        usage: 0x10 | 0x2,
    }
}

fn scenario_state(modes: &Vec<PresentMode>, max_image_count: u32, images: usize) -> HalState {
    let (mut hal, _) = HalState::new(
        scenario_device(),
        &scenario_caps(max_image_count, 800, 600),
        &Some(vec![Format::new(RGBA8_UNORM), Format::new(RGBA8_SRGB)]),
        modes,
        &vec![CompositeAlpha::Opaque],
    )
    .unwrap();
    hal.swapchain_created(images);
    hal
}

#[test]
fn scenario_srgb_and_mailbox_are_selected() {
    let formats = Some(vec![Format::new(RGBA8_UNORM), Format::new(RGBA8_SRGB)]);
    let modes = vec![PresentMode::Fifo, PresentMode::Mailbox];
    for max in [2u32, 3, 4, 5, 8, 64] {
        let caps = scenario_caps(max, 800, 600);
        let config =
            SwapchainConfig::select(&caps, &formats, &modes, &vec![CompositeAlpha::Opaque])
                .unwrap();
        assert_eq!(config.format, Format { code: RGBA8_SRGB });
        assert_eq!(config.present_mode, PresentMode::Mailbox);
        assert_eq!(config.image_count, std::cmp::min(max - 1, 3));
        assert_eq!(config.image_count, select_image_count(PresentMode::Mailbox, max));
        let (hal, plan) = HalState::new(
            scenario_device(),
            &caps,
            &formats,
            &modes,
            &vec![CompositeAlpha::Opaque],
        )
        .unwrap();
        assert_eq!(plan[0], Command::CreateSwapchain(config));
        assert_eq!(hal.frames_in_flight(), std::cmp::min(max - 1, 3) as usize);
    }
}

#[test]
fn scenario_out_of_date_acquisition_rebuilds_once() {
    let mut hal = scenario_state(&vec![PresentMode::Fifo], 3, 2);
    let mut actions: Vec<FrameAction> = Vec::new();
    let mut rebuilds = 0;
    actions.push(hal.draw_clear_frame());
    assert_eq!(hal.advance(FrameEvent::AcquireFailed), Err(Error::ImageAcquisitionFailed));
    actions.push(hal.advance(FrameEvent::Recorded).unwrap());
    actions.push(hal.advance(FrameEvent::Submitted).unwrap());
    actions.push(hal.advance(FrameEvent::Presented { suboptimal: false }).unwrap());
    assert!(!actions
        .iter()
        .any(|a| matches!(a, FrameAction::Record(_) | FrameAction::Submit(_))));
    assert!(!actions.iter().any(|a| matches!(a, FrameAction::Present { .. })));
    for _ in 0..3 {
        let action = hal.draw_clear_frame();
        assert_eq!(action, FrameAction::Rebuild);
        if hal.phase() == Phase::NeedsRebuild && rebuilds == 0 {
            let plan = hal
                .recreate_swapchain(
                    &scenario_caps(3, 800, 600),
                    &None,
                    &vec![PresentMode::Fifo],
                    &vec![CompositeAlpha::Opaque],
                )
                .unwrap();
            let created =
                plan.iter().filter(|c| matches!(c, Command::CreateSwapchain(_))).count();
            let destroyed = plan.iter().filter(|c| matches!(c, Command::DestroySwapchain)).count();
            assert_eq!(created, 1);
            assert_eq!(destroyed, 1);
            rebuilds += 1;
            hal.swapchain_created(2);
            break;
        }
    }
    assert_eq!(rebuilds, 1);
    assert_eq!(hal.phase(), Phase::Idle);
    assert!(matches!(hal.draw_clear_frame(), FrameAction::Acquire { .. }));
}

#[test]
fn scenario_resize_rebuilds_once_with_the_new_extent() {
    let mut hal = scenario_state(&vec![PresentMode::Fifo, PresentMode::Mailbox], 4, 3);
    assert_eq!(hal.frames_in_flight(), 3);
    let mut rebuilds = 0;
    for frame in 0..8u32 {
        if frame == 5 {
            let extent = Extent2D { width: 1280, height: 720 };
            assert_eq!(hal.observe(WindowEvent::Resized { extent }), LoopControl::Continue);
        }
        match hal.draw_clear_frame() {
            FrameAction::Rebuild => {
                let plan = hal
                    .recreate_swapchain(
                        &scenario_caps(3, 1280, 720),
                        &None,
                        &vec![PresentMode::Fifo, PresentMode::Mailbox],
                        &vec![CompositeAlpha::Opaque],
                    )
                    .unwrap();
                rebuilds += 1;
                let last = plan.len() - 1;
                let teardown = plan.iter().position(|c| *c == Command::DestroySwapchain).unwrap();
                assert!(teardown < last);
                match plan[last] {
                    Command::CreateSwapchain(config) => {
                        assert_eq!(config.extent, Extent2D { width: 1280, height: 720 });
                        assert_eq!(config.image_count, 2);
                    }
                    _ => panic!("the swapchain is created last"),
                }
                assert_eq!(
                    plan.iter().filter(|c| matches!(c, Command::CreateSwapchain(_))).count(),
                    1
                );
                assert_eq!(hal.frames_in_flight(), 2);
                assert!(hal.current_frame() < hal.frames_in_flight());
                hal.swapchain_created(2);
                assert_eq!(hal.render_area(), Rect { x: 0, y: 0, w: 1280, h: 720 });
                assert_eq!(hal.image_view_count(), hal.image_count());
                assert_eq!(hal.framebuffer_count(), hal.image_count());
                assert!(matches!(hal.draw_clear_frame(), FrameAction::Acquire { .. }));
            }
            FrameAction::Acquire { .. } => {}
            other => panic!("unexpected action {:?}", other),
        }
        hal.advance(FrameEvent::ImageAcquired { image: 0, suboptimal: false }).unwrap();
        hal.advance(FrameEvent::Recorded).unwrap();
        hal.advance(FrameEvent::Submitted).unwrap();
        hal.advance(FrameEvent::Presented { suboptimal: false }).unwrap();
    }
    assert_eq!(rebuilds, 1);
}

#[test]
fn scenario_hundred_frames_with_two_in_flight() {
    let mut hal = scenario_state(&vec![PresentMode::Fifo], 3, 3);
    assert_eq!(hal.frames_in_flight(), 2);
    let mut waits = [0usize; 2];
    let mut submissions = [0usize; 2];
    let mut outstanding = [false; 2];
    for frame in 0..100usize {
        assert_eq!(hal.current_frame(), frame % 2);
        match hal.draw_clear_frame() {
            FrameAction::Acquire { fence, image_available, wait, reset, timeout_ns } => {
                assert_eq!(fence, frame % 2);
                assert_eq!(image_available, frame % 2);
                assert!(wait);
                assert!(reset);
                assert_eq!(timeout_ns, u64::MAX);
                waits[fence] += 1;
                outstanding[fence] = false;
            }
            other => panic!("unexpected action {:?}", other),
        }
        let image = (frame % 3) as u32;
        hal.advance(FrameEvent::ImageAcquired { image, suboptimal: false }).unwrap();
        match hal.advance(FrameEvent::Recorded).unwrap() {
            FrameAction::Submit(submission) => {
                assert_eq!(submission.fence, frame % 2);
                assert!(!outstanding[submission.fence]);
                outstanding[submission.fence] = true;
                submissions[submission.fence] += 1;
            }
            other => panic!("unexpected action {:?}", other),
        }
        hal.advance(FrameEvent::Submitted).unwrap();
        assert_eq!(hal.advance(FrameEvent::Presented { suboptimal: false }), Ok(FrameAction::Nothing));
        assert_eq!(waits[0] + waits[1], frame + 1);
        assert!(waits[frame % 2] == frame / 2 + 1);
    }
    assert_eq!(waits, [50, 50]);
    assert_eq!(submissions, [50, 50]);
    assert_eq!(hal.current_frame(), 100 % 2);
    assert_eq!(hal.phase(), Phase::Idle);
}
