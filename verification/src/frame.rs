use vstd::prelude::*;
use crate::recorder::Recording;
use crate::recorder::Submission;
use crate::surface::Extent2D;

verus! {

/// Where the presentation loop stands.
#[derive(Clone, Copy, Debug, PartialEq, Eq, Structural)]
pub enum Phase {
    /// Between two frames.
    Idle,
    /// A frame has taken slot `slot` and waits for its image.
    Acquiring { slot: usize },
    /// The commands for image `image` are being recorded.
    Recording { slot: usize, image: u32 },
    /// The commands are being submitted.
    Submitted { slot: usize, image: u32 },
    /// The image is being presented.
    Presenting { slot: usize, image: u32 },
    /// The swapchain no longer fits the surface: it has to be recreated
    /// before the next frame.
    NeedsRebuild,
    /// The swapchain is being created; how many images it holds is awaited.
    Rebuilding,
}

/// What the caller is asked to do on the device for the frame under way.
#[derive(Clone, Copy, Debug, PartialEq, Eq, Structural)]
pub enum FrameAction {
    /// Where `wait` is set, wait on fence `fence` for at most `timeout_ns`
    /// nanoseconds. Where `reset` is set, reset the fence. Then acquire the
    /// next image of the swapchain, within the same time, and have
    /// semaphore `image_available` signaled once the image can be drawn to.
    Acquire { fence: usize, image_available: usize, wait: bool, reset: bool, timeout_ns: u64 },
    /// Record the commands of the frame.
    Record(Recording),
    /// Submit the recorded commands.
    Submit(Submission),
    /// Present image `image` once semaphore `wait_on` is signaled.
    Present { image: u32, wait_on: usize },
    /// Recreate the swapchain.
    Rebuild,
    /// Nothing is to be done.
    Nothing,
}

/// The time that a frame waits for its fence and for its image: without
/// end.
pub const NO_TIMEOUT: u64 = 0xFFFF_FFFF_FFFF_FFFF;

/// What came of the action that the caller was asked for.
#[derive(Clone, Copy, Debug, PartialEq, Eq, Structural)]
pub enum FrameEvent {
    /// The wait on the fence failed.
    FenceWaitFailed,
    /// The fence could not be reset, after the wait on it where one was due.
    FenceResetFailed,
    /// The fence is waited on and reset as far as was due, but no image
    /// could be acquired.
    AcquireFailed,
    /// The fence is waited on and reset as far as was due, and image `image`
    /// was acquired. `suboptimal` says that the swapchain no longer fits the
    /// surface exactly.
    ImageAcquired { image: u32, suboptimal: bool },
    /// The commands are recorded.
    Recorded,
    /// The commands are submitted.
    Submitted,
    /// The image is handed to the display. `suboptimal` says that the
    /// swapchain no longer fits the surface exactly.
    Presented { suboptimal: bool },
    /// The image could not be presented.
    PresentFailed,
}

/// What the window reports between two frames.
#[derive(Clone, Copy, Debug, PartialEq, Eq, Structural)]
pub enum WindowEvent {
    CloseRequested,
    KeyPressed { code: u32 },
    Resized { extent: Extent2D },
    DpiChanged,
    RefreshDamaged,
    PointerMoved { x: i32, y: i32 },
}

/// Whether the loop goes on.
#[derive(Clone, Copy, Debug, PartialEq, Eq, Structural)]
pub enum LoopControl {
    Continue,
    Exit,
}

impl WindowEvent {
    /// An event after which the swapchain may no longer fit the surface: a
    /// new size, a new scale factor, or a damaged window. The three are not
    /// told apart.
    pub open spec fn invalidates_swapchain(self) -> bool {
        self is Resized || self is DpiChanged || self is RefreshDamaged
    }

    /// Whether the swapchain has to be recreated after the event.
    pub fn needs_rebuild(&self) -> (r: bool)
        ensures
            r == self.invalidates_swapchain(),
    {
        match self {
            WindowEvent::Resized { .. } => true,
            WindowEvent::DpiChanged => true,
            WindowEvent::RefreshDamaged => true,
            _ => false,
        }
    }
}

} // verus!
