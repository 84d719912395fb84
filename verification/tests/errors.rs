use nice_gfx::command::Command;
use nice_gfx::error::Error;
use nice_gfx::format::Format;
use nice_gfx::pass::{ImageViewDesc, RenderPassDesc};
use nice_gfx::surface::{CompositeAlpha, Extent, Extent2D, PresentMode, SwapchainConfig};

fn every_error() -> Vec<Error> {
    vec![
        Error::NoSuitableAdapter,
        Error::NoQueueFamily,
        Error::DeviceOpenFailed,
        Error::QueueGroupUnavailable,
        Error::NoCommandQueue,
        Error::NoPresentMode,
        Error::NoCompositeAlpha,
        Error::EmptyFormatList,
        Error::SurfaceNotColorCapable,
        Error::SwapchainCreationFailed,
        Error::FenceCreationFailed,
        Error::SemaphoreCreationFailed,
        Error::RenderPassCreationFailed,
        Error::ImageViewCreationFailed,
        Error::FramebufferCreationFailed,
        Error::CommandPoolCreationFailed,
        Error::FenceWaitError,
        Error::FenceResetError,
        Error::ImageAcquisitionFailed,
        Error::PresentFailed,
    ]
}

fn some_config() -> SwapchainConfig {
    SwapchainConfig {
        present_mode: PresentMode::Fifo,
        composite_alpha: CompositeAlpha::Opaque,
        format: Format::new(43),
        extent: Extent2D { width: 4, height: 3 },
        image_count: 2,
        image_layers: 1,
        image_usage: 0x10,
    }
}

#[test]
fn only_frame_errors_are_recoverable() {
    for error in every_error() {
        let expected = matches!(
            error,
            Error::FenceWaitError
                | Error::FenceResetError
                | Error::ImageAcquisitionFailed
                | Error::PresentFailed
        );
        assert_eq!(error.is_recoverable(), expected);
    }
}

#[test]
fn only_swapchain_errors_ask_for_a_rebuild() {
    for error in every_error() {
        let expected = matches!(error, Error::ImageAcquisitionFailed | Error::PresentFailed);
        assert_eq!(error.needs_rebuild(), expected);
        if error.needs_rebuild() {
            assert!(error.is_recoverable());
        }
    }
}

#[test]
fn every_error_has_its_own_message() {
    let errors = every_error();
    for (i, a) in errors.iter().enumerate() {
        assert!(!a.message().is_empty());
        for b in errors.iter().skip(i + 1) {
            assert_ne!(a.message(), b.message());
        }
    }
}

#[test]
fn messages_read_as_expected() {
    assert_eq!(Error::NoSuitableAdapter.message(), "Couldn't find a graphical adapter");
    assert_eq!(Error::NoPresentMode.message(), "No PresentMode values specified!");
    assert_eq!(Error::NoCompositeAlpha.message(), "No CompositeAlpha values specified");
    assert_eq!(Error::FenceWaitError.message(), "Failed to wait on the fence!");
    assert_eq!(Error::FenceResetError.message(), "Couldn't reset the fence!");
    assert_eq!(
        Error::ImageAcquisitionFailed.message(),
        "Couldn't acquire an image from the swapchain!"
    );
    assert_eq!(Error::PresentFailed.message(), "Failed to present into the swapchain!");
    assert_eq!(Error::DeviceOpenFailed.message(), "Couldn't open the PhysicalDevice");
}

#[test]
fn failed_creation_commands_name_their_error() {
    let extent = Extent { width: 4, height: 3, depth: 1 };
    assert_eq!(
        Command::CreateSwapchain(some_config()).failure(),
        Some(Error::SwapchainCreationFailed)
    );
    assert_eq!(
        Command::CreateRenderPass(RenderPassDesc::for_format(Format::new(43))).failure(),
        Some(Error::RenderPassCreationFailed)
    );
    assert_eq!(
        Command::CreateImageView { image: 0, desc: ImageViewDesc::for_format(Format::new(43)) }
            .failure(),
        Some(Error::ImageViewCreationFailed)
    );
    assert_eq!(
        Command::CreateFramebuffer { image_view: 0, extent }.failure(),
        Some(Error::FramebufferCreationFailed)
    );
    assert_eq!(Command::CreateFence { slot: 0 }.failure(), Some(Error::FenceCreationFailed));
    assert_eq!(
        Command::CreateImageAvailable { slot: 0 }.failure(),
        Some(Error::SemaphoreCreationFailed)
    );
    assert_eq!(
        Command::CreateRenderFinished { slot: 0 }.failure(),
        Some(Error::SemaphoreCreationFailed)
    );
    assert_eq!(Command::CreateCommandPool { individual_reset: true }.failure(), Some(Error::CommandPoolCreationFailed));
}

#[test]
fn other_commands_cannot_fail() {
    let commands = vec![
        Command::WaitIdle,
        Command::AllocateCommandBuffer { index: 0 },
        Command::FreeCommandBuffer { index: 0 },
        Command::ResetCommandPool,
        Command::DestroyFramebuffer { index: 0 },
        Command::DestroyRenderPass,
        Command::DestroyImageView { index: 0 },
        Command::DestroySwapchain,
        Command::DestroyFence { slot: 0 },
        Command::DestroyImageAvailable { slot: 0 },
        Command::DestroyRenderFinished { slot: 0 },
        Command::DestroyCommandPool,
        Command::DestroyDevice,
        Command::DestroyInstance,
    ];
    for command in commands {
        assert_eq!(command.failure(), None);
    }
}

#[test]
fn creation_failures_are_fatal() {
    let commands = vec![
        Command::CreateSwapchain(some_config()),
        Command::CreateFence { slot: 1 },
        Command::CreateCommandPool { individual_reset: true },
    ];
    for command in commands {
        assert!(!command.failure().unwrap().is_recoverable());
    }
}
