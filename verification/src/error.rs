use vstd::prelude::*;

verus! {

/// Everything that can go wrong between opening the device and presenting a
/// frame.
#[derive(Clone, Copy, Debug, PartialEq, Eq, Structural)]
pub enum Error {
    /// No adapter has a queue family that draws and presents to the surface.
    NoSuitableAdapter,
    /// The adapter has no queue family that draws and presents to the surface.
    NoQueueFamily,
    /// The physical device could not be opened.
    DeviceOpenFailed,
    /// The opened device did not hand out the queue group that was asked for.
    QueueGroupUnavailable,
    /// The queue group holds no command queue.
    NoCommandQueue,
    /// The surface supports none of the four present modes.
    NoPresentMode,
    /// The surface supports none of the four composite-alpha modes.
    NoCompositeAlpha,
    /// The surface states its preferred formats, and the list is empty.
    EmptyFormatList,
    /// The surface's images cannot serve as colour attachments.
    SurfaceNotColorCapable,
    /// The device refused to create the swapchain.
    SwapchainCreationFailed,
    /// The device refused to create a fence.
    FenceCreationFailed,
    /// The device refused to create a semaphore.
    SemaphoreCreationFailed,
    /// The device refused to create the render pass.
    RenderPassCreationFailed,
    /// The device refused to create an image view.
    ImageViewCreationFailed,
    /// The device refused to create a framebuffer.
    FramebufferCreationFailed,
    /// The device refused to create the command pool.
    CommandPoolCreationFailed,
    /// Waiting on a frame's fence failed.
    FenceWaitError,
    /// Resetting a frame's fence failed.
    FenceResetError,
    /// No image could be acquired: the swapchain is stale, suboptimal or lost.
    ImageAcquisitionFailed,
    /// The image could not be presented: the swapchain is stale, suboptimal or lost.
    PresentFailed,
}

impl Error {
    /// A failure that costs one frame: the frame is abandoned and the loop
    /// goes on. Every other failure ends the program.
    pub open spec fn recoverable(self) -> bool {
        self == Error::FenceWaitError || self == Error::FenceResetError
            || self == Error::ImageAcquisitionFailed || self == Error::PresentFailed
    }

    /// A recoverable failure after which the swapchain has to be rebuilt
    /// before the next frame.
    pub open spec fn stale_swapchain(self) -> bool {
        self == Error::ImageAcquisitionFailed || self == Error::PresentFailed
    }

    /// The text that is shown for the failure.
    pub open spec fn text(self) -> Seq<char> {
        match self {
            Error::NoSuitableAdapter => "Couldn't find a graphical adapter"@,
            Error::NoQueueFamily => "Couldn't find a QueueFamily with graphics"@,
            Error::DeviceOpenFailed => "Couldn't open the PhysicalDevice"@,
            Error::QueueGroupUnavailable => "Couldn't take ownership of the QueueGroup"@,
            Error::NoCommandQueue => "The QueueGroup did not have any CommandQueues available"@,
            Error::NoPresentMode => "No PresentMode values specified!"@,
            Error::NoCompositeAlpha => "No CompositeAlpha values specified"@,
            Error::EmptyFormatList => "Preferred format list was empty"@,
            Error::SurfaceNotColorCapable => "The surface isn't capable of supporting color"@,
            Error::SwapchainCreationFailed => "Failed to create the swapchain"@,
            Error::FenceCreationFailed => "Could not create a fence"@,
            Error::SemaphoreCreationFailed => "Could not create a semaphore"@,
            Error::RenderPassCreationFailed => "Couldn't create a render pass"@,
            Error::ImageViewCreationFailed => "Couldn't create the image_view for the image"@,
            Error::FramebufferCreationFailed => "Failed to create a framebuffer"@,
            Error::CommandPoolCreationFailed => "Could not create the raw command pool"@,
            Error::FenceWaitError => "Failed to wait on the fence!"@,
            Error::FenceResetError => "Couldn't reset the fence!"@,
            Error::ImageAcquisitionFailed => "Couldn't acquire an image from the swapchain!"@,
            Error::PresentFailed => "Failed to present into the swapchain!"@,
        }
    }

    /// Whether the loop may go on after this failure.
    pub fn is_recoverable(&self) -> (r: bool)
        ensures
            r == self.recoverable(),
    {
        match self {
            Error::FenceWaitError => true,
            Error::FenceResetError => true,
            Error::ImageAcquisitionFailed => true,
            Error::PresentFailed => true,
            _ => false,
        }
    }

    /// Whether the swapchain has to be rebuilt after this failure.
    pub fn needs_rebuild(&self) -> (r: bool)
        ensures
            r == self.stale_swapchain(),
            r ==> self.recoverable(),
    {
        match self {
            Error::ImageAcquisitionFailed => true,
            Error::PresentFailed => true,
            _ => false,
        }
    }

    /// The text that is shown for the failure.
    pub fn message(&self) -> (r: &'static str)
        ensures
            r@ == self.text(),
    {
        match self {
            Error::NoSuitableAdapter => "Couldn't find a graphical adapter",
            Error::NoQueueFamily => "Couldn't find a QueueFamily with graphics",
            Error::DeviceOpenFailed => "Couldn't open the PhysicalDevice",
            Error::QueueGroupUnavailable => "Couldn't take ownership of the QueueGroup",
            Error::NoCommandQueue => "The QueueGroup did not have any CommandQueues available",
            Error::NoPresentMode => "No PresentMode values specified!",
            Error::NoCompositeAlpha => "No CompositeAlpha values specified",
            Error::EmptyFormatList => "Preferred format list was empty",
            Error::SurfaceNotColorCapable => "The surface isn't capable of supporting color",
            Error::SwapchainCreationFailed => "Failed to create the swapchain",
            Error::FenceCreationFailed => "Could not create a fence",
            Error::SemaphoreCreationFailed => "Could not create a semaphore",
            Error::RenderPassCreationFailed => "Couldn't create a render pass",
            Error::ImageViewCreationFailed => "Couldn't create the image_view for the image",
            Error::FramebufferCreationFailed => "Failed to create a framebuffer",
            Error::CommandPoolCreationFailed => "Could not create the raw command pool",
            Error::FenceWaitError => "Failed to wait on the fence!",
            Error::FenceResetError => "Couldn't reset the fence!",
            Error::ImageAcquisitionFailed => "Couldn't acquire an image from the swapchain!",
            Error::PresentFailed => "Failed to present into the swapchain!",
        }
    }
}

} // verus!
