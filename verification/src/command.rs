use vstd::prelude::*;
use crate::error::Error;
use crate::pass::ImageViewDesc;
use crate::pass::RenderPassDesc;
use crate::surface::Extent;
use crate::surface::SwapchainConfig;

verus! {

/// One thing that the caller is asked to do on the device while objects are
/// made or destroyed. Objects of a kind are told apart by their place among
/// the objects of that kind. Commands are performed in the order in which
/// they are handed out. A command to destroy an object that never came to
/// be, because its creation failed, is passed over.
#[derive(Clone, Copy, Debug, PartialEq, Eq, Structural)]
pub enum Command {
    /// Wait until the device has finished all submitted work.
    WaitIdle,
    /// Create the swapchain.
    CreateSwapchain(SwapchainConfig),
    /// Create the render pass.
    CreateRenderPass(RenderPassDesc),
    /// Create the view of the swapchain's image `image`.
    CreateImageView { image: usize, desc: ImageViewDesc },
    /// Create the framebuffer that binds image view `image_view` to the
    /// render pass.
    CreateFramebuffer { image_view: usize, extent: Extent },
    /// Create the in-flight fence of a frame slot, signaled.
    CreateFence { slot: usize },
    /// Create the image-available semaphore of a frame slot.
    CreateImageAvailable { slot: usize },
    /// Create the render-finished semaphore of a frame slot.
    CreateRenderFinished { slot: usize },
    /// Create the command pool. `individual_reset` says that its buffers can
    /// be reset one by one.
    CreateCommandPool { individual_reset: bool },
    /// Take one more command buffer from the pool.
    AllocateCommandBuffer { index: usize },
    /// Hand a command buffer back to the pool.
    FreeCommandBuffer { index: usize },
    /// Reset the command pool.
    ResetCommandPool,
    DestroyFramebuffer { index: usize },
    DestroyRenderPass,
    DestroyImageView { index: usize },
    DestroySwapchain,
    DestroyFence { slot: usize },
    DestroyImageAvailable { slot: usize },
    DestroyRenderFinished { slot: usize },
    DestroyCommandPool,
    /// Close the device.
    DestroyDevice,
    /// Close the instance.
    DestroyInstance,
}

impl Command {
    /// The error with which startup or a rebuild ends where the device
    /// fails the command. Destroying and waiting cannot fail.
    pub open spec fn failure_of(self) -> Option<Error> {
        match self {
            Command::CreateSwapchain(_) => Some(Error::SwapchainCreationFailed),
            Command::CreateRenderPass(_) => Some(Error::RenderPassCreationFailed),
            Command::CreateImageView { .. } => Some(Error::ImageViewCreationFailed),
            Command::CreateFramebuffer { .. } => Some(Error::FramebufferCreationFailed),
            Command::CreateFence { .. } => Some(Error::FenceCreationFailed),
            Command::CreateImageAvailable { .. } => Some(Error::SemaphoreCreationFailed),
            Command::CreateRenderFinished { .. } => Some(Error::SemaphoreCreationFailed),
            Command::CreateCommandPool { .. } => Some(Error::CommandPoolCreationFailed),
            _ => None,
        }
    }

    /// The error to end with where the device fails the command, `None` for
    /// a command that cannot fail.
    pub fn failure(&self) -> (r: Option<Error>)
        ensures
            r == self.failure_of(),
            r matches Some(e) ==> !e.recoverable(),
    {
        match self {
            Command::CreateSwapchain(_) => Some(Error::SwapchainCreationFailed),
            Command::CreateRenderPass(_) => Some(Error::RenderPassCreationFailed),
            Command::CreateImageView { .. } => Some(Error::ImageViewCreationFailed),
            Command::CreateFramebuffer { .. } => Some(Error::FramebufferCreationFailed),
            Command::CreateFence { .. } => Some(Error::FenceCreationFailed),
            Command::CreateImageAvailable { .. } => Some(Error::SemaphoreCreationFailed),
            Command::CreateRenderFinished { .. } => Some(Error::SemaphoreCreationFailed),
            Command::CreateCommandPool { .. } => Some(Error::CommandPoolCreationFailed),
            _ => None,
        }
    }
}

} // verus!
