use vstd::prelude::*;
use crate::pass::COLOR_ATTACHMENT_OUTPUT;
use crate::surface::Rect;
use crate::sync::FrameSlot;

verus! {

/// One draw call.
#[derive(Clone, Copy, Debug, PartialEq, Eq, Structural)]
pub struct Draw {
    pub vertices: u32,
    pub instances: u32,
}

/// What is recorded for one frame: the command buffer is begun anew, the
/// render pass is begun on the framebuffer over the render area with the
/// clear values, what is to be drawn is drawn, and pass and buffer are ended.
#[derive(Clone, Copy, Debug, PartialEq, Eq, Structural)]
pub struct Recording {
    /// The place of the command buffer: that of the acquired image.
    pub command_buffer: usize,
    /// The place of the framebuffer: that of the acquired image.
    pub framebuffer: usize,
    /// Whether the buffer is recorded for a single submission.
    pub one_time_submit: bool,
    pub render_area: Rect,
    /// The number of clear values that the pass begins with.
    pub clear_values: usize,
    /// What is drawn inside the pass: nothing, where the frame is the clear
    /// colour alone.
    pub draw: Option<Draw>,
}

/// How the recorded commands are submitted: they wait for one semaphore at
/// one pipeline stage, and signal one semaphore and one fence when they are
/// done. The caller does not wait for that: it shows in the fence, a frame
/// later.
#[derive(Clone, Copy, Debug, PartialEq, Eq, Structural)]
pub struct Submission {
    /// The place of the command buffer.
    pub command_buffer: usize,
    /// The place of the image-available semaphore that is waited for.
    pub wait_on: usize,
    /// The pipeline stage that waits.
    pub wait_stage: u32,
    /// The place of the render-finished semaphore that is signaled.
    pub signal: usize,
    /// The place of the in-flight fence that is signaled.
    pub fence: usize,
}

/// What is recorded for image `image`, for a frame of the clear colour: a
/// buffer for one submission, a pass with one clear value, and no draw call.
pub open spec fn recording_of(image: u32, render_area: Rect) -> Recording {
    Recording {
        command_buffer: image as usize,
        framebuffer: image as usize,
        one_time_submit: true,
        render_area,
        clear_values: 1,
        draw: None,
    }
}

/// How the commands for image `image` are submitted by the frame that holds
/// slot `slot`.
pub open spec fn submission_of(image: u32, slot: usize) -> Submission {
    Submission {
        command_buffer: image as usize,
        wait_on: slot,
        wait_stage: COLOR_ATTACHMENT_OUTPUT,
        signal: slot,
        fence: slot,
    }
}

/// Describes the recording of a frame of the clear colour for image
/// `image`: command buffer and framebuffer are those of the image, the
/// buffer is begun for one submission, the pass has one clear value and
/// ends at once.
pub fn record(image: u32, render_area: Rect) -> (r: Recording)
    ensures
        r == recording_of(image, render_area),
{
    Recording {
        command_buffer: image as usize,
        framebuffer: image as usize,
        one_time_submit: true,
        render_area,
        clear_values: 1,
        draw: None,
    }
}

/// Describes the submission of the commands for image `image` by the frame
/// that holds slot `slot`: the work waits for the slot's image-available
/// semaphore where colour is written, and signals the slot's
/// render-finished semaphore and the slot's fence.
pub fn submit(image: u32, slot: usize) -> (r: Submission)
    ensures
        r == submission_of(image, slot),
{
    Submission {
        command_buffer: image as usize,
        wait_on: slot,
        wait_stage: COLOR_ATTACHMENT_OUTPUT,
        signal: slot,
        fence: slot,
    }
}

/// Describes recording and submission of one frame together, for the
/// acquired image and the objects of the frame's slot.
pub fn record_and_submit(image: u32, render_area: Rect, slot: &FrameSlot) -> (r: (
    Recording,
    Submission,
))
    ensures
        r.0 == recording_of(image, render_area),
        r.1 == (Submission {
            command_buffer: image as usize,
            wait_on: slot.image_available,
            wait_stage: COLOR_ATTACHMENT_OUTPUT,
            signal: slot.render_finished,
            fence: slot.fence,
        }),
{
    (
        record(image, render_area),
        Submission {
            command_buffer: image as usize,
            wait_on: slot.image_available,
            wait_stage: COLOR_ATTACHMENT_OUTPUT,
            signal: slot.render_finished,
            fence: slot.fence,
        },
    )
}

} // verus!
