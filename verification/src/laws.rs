use vstd::prelude::*;
use crate::command::Command;
use crate::device::DeviceContext;
use crate::format::Format;
use crate::format::FormatInfo;
use crate::format::RGBA8_SRGB;
use crate::frame::FrameAction;
use crate::frame::FrameEvent;
use crate::frame::Phase;
use crate::hal_state::HalView;
use crate::pass::framebuffer_extent_of;
use crate::pass::ImageViewDesc;
use crate::pass::RenderPassDesc;
use crate::surface::first_srgb;
use crate::surface::preferred_format;
use crate::surface::preferred_image_count;
use crate::surface::preferred_present_mode;
use crate::surface::CompositeAlpha;
use crate::surface::PresentMode;
use crate::surface::SurfaceCapabilities;
use crate::surface::SwapchainConfig;
use crate::swapchain::creation_plan;
use crate::sync::FenceState;

verus! {

/// Where `formats[from..]` holds an sRGB format, `first_srgb` is the first
/// of them; where it holds none, `first_srgb` is `None`.
pub proof fn first_srgb_is_first(formats: Seq<FormatInfo>, from: int)
    requires
        0 <= from,
    ensures
        match first_srgb(formats, from) {
            Some(format) => exists|i: int|
                {
                    &&& from <= i < formats.len()
                    &&& (#[trigger] formats[i]).format == format
                    &&& formats[i].srgb()
                    &&& forall|j: int| from <= j < i ==> !(#[trigger] formats[j]).srgb()
                },
            None => forall|j: int| from <= j < formats.len() ==> !(#[trigger] formats[j]).srgb(),
        },
    decreases formats.len() - from,
{
    if from >= formats.len() {
    } else if formats[from].srgb() {
        assert(formats[from].format == first_srgb(formats, from)->0);
    } else {
        first_srgb_is_first(formats, from + 1);
        match first_srgb(formats, from + 1) {
            Some(format) => {
                let i = choose|i: int|
                    {
                        &&& from + 1 <= i < formats.len()
                        &&& (#[trigger] formats[i]).format == format
                        &&& formats[i].srgb()
                        &&& forall|j: int| from + 1 <= j < i ==> !(#[trigger] formats[j]).srgb()
                    };
                assert(formats[i].format == format);
                assert forall|j: int| from <= j < i implies !(#[trigger] formats[j]).srgb() by {}
            },
            None => {},
        }
    }
}

/// The format that is chosen for a surface is an sRGB format whenever the
/// surface advertises one, and then the first of them. Where it advertises
/// formats but no sRGB format, the first advertised format is chosen. Where
/// it advertises no list, the sRGB format of eight bits a channel is chosen.
/// Only an empty list gives no format.
pub proof fn format_selection(preferred: Option<Seq<FormatInfo>>)
    ensures
        preferred is None ==> preferred_format(preferred) == Some(Format { code: RGBA8_SRGB }),
        preferred matches Some(formats) ==> {
            &&& (exists|i: int| 0 <= i < formats.len() && (#[trigger] formats[i]).srgb())
                ==> exists|i: int|
                {
                    &&& 0 <= i < formats.len()
                    &&& (#[trigger] formats[i]).srgb()
                    &&& preferred_format(preferred) == Some(formats[i].format)
                    &&& forall|j: int| 0 <= j < i ==> !(#[trigger] formats[j]).srgb()
                }
            &&& (forall|i: int| 0 <= i < formats.len() ==> !(#[trigger] formats[i]).srgb())
                && formats.len() > 0 ==> preferred_format(preferred) == Some(formats[0].format)
            &&& formats.len() == 0 <==> preferred_format(preferred) is None
        },
{
    match preferred {
        None => {},
        Some(formats) => {
            first_srgb_is_first(formats, 0);
        },
    }
}

/// Of the present modes that a surface supports, `Mailbox` is chosen where
/// it is among them, else `Fifo`, else `Relaxed`, else `Immediate`; there is
/// no choice only where the surface supports none of the four.
pub proof fn present_mode_selection(modes: Seq<PresentMode>)
    ensures
        modes.contains(PresentMode::Mailbox) ==> preferred_present_mode(modes) == Some(
            PresentMode::Mailbox,
        ),
        !modes.contains(PresentMode::Mailbox) && modes.contains(PresentMode::Fifo)
            ==> preferred_present_mode(modes) == Some(PresentMode::Fifo),
        !modes.contains(PresentMode::Mailbox) && !modes.contains(PresentMode::Fifo)
            && modes.contains(PresentMode::Relaxed) ==> preferred_present_mode(modes) == Some(
            PresentMode::Relaxed,
        ),
        !modes.contains(PresentMode::Mailbox) && !modes.contains(PresentMode::Fifo)
            && !modes.contains(PresentMode::Relaxed) && modes.contains(PresentMode::Immediate)
            ==> preferred_present_mode(modes) == Some(PresentMode::Immediate),
        preferred_present_mode(modes) is None <==> modes.len() == 0,
        preferred_present_mode(modes) matches Some(mode) ==> modes.contains(mode),
{
    if modes.len() > 0 {
        let first = modes[0];
        assert(modes.contains(first));
    }
}

/// On a surface that supports at least two images, the number of images
/// that is asked for is at least one and less than the upper end of what
/// the surface supports; it is at most three with `Mailbox` and at most two
/// with any other mode.
pub proof fn image_count_bounds(mode: PresentMode, max_image_count: u32)
    requires
        max_image_count >= 2,
    ensures
        1 <= preferred_image_count(mode, max_image_count) <= max_image_count - 1,
        mode == PresentMode::Mailbox ==> preferred_image_count(mode, max_image_count) <= 3,
        mode != PresentMode::Mailbox ==> preferred_image_count(mode, max_image_count) <= 2,
{
}

/// The configuration that is chosen for a surface that supports at least
/// two images asks for a number of images within these bounds, and for as
/// many as `preferred_image_count` gives for the chosen present mode.
pub proof fn chosen_image_count(
    caps: SurfaceCapabilities,
    preferred: Option<Seq<FormatInfo>>,
    modes: Seq<PresentMode>,
    alphas: Seq<CompositeAlpha>,
)
    requires
        caps.max_image_count >= 2,
    ensures
        SwapchainConfig::chosen(caps, preferred, modes, alphas) matches Ok(config) ==> {
            &&& 1 <= config.image_count <= caps.max_image_count - 1
            &&& config.present_mode == PresentMode::Mailbox ==> config.image_count <= 3
            &&& config.present_mode != PresentMode::Mailbox ==> config.image_count <= 2
            &&& preferred_present_mode(modes) == Some(config.present_mode)
        },
{
}

/// The commands that build on a swapchain of `images` images create the
/// render pass first, then exactly one view for each image, then exactly
/// one framebuffer for each view: as many views as framebuffers as images.
pub proof fn creation_plan_is_one_per_image(config: SwapchainConfig, images: nat)
    ensures
        creation_plan(config, images).len() == 1 + 2 * images,
        creation_plan(config, images)[0] == Command::CreateRenderPass(
            RenderPassDesc::of(config.format),
        ),
        forall|i: int|
            0 <= i < images ==> #[trigger] creation_plan(config, images)[1 + i]
                == (Command::CreateImageView {
                image: i as usize,
                desc: ImageViewDesc::of(config.format),
            }),
        forall|i: int|
            0 <= i < images ==> #[trigger] creation_plan(config, images)[1 + images + i]
                == (Command::CreateFramebuffer {
                image_view: i as usize,
                extent: framebuffer_extent_of(config.extent),
            }),
{
}

/// After a rebuild, whatever the state between frames it began in, there are
/// as many image views as framebuffers as images in the swapchain, and as
/// many command buffers; there are as many frame slots as the new
/// swapchain was asked to have images, and the counter points at one of
/// them.
pub proof fn rebuild_keeps_counts_equal(state: HalView, config: SwapchainConfig, images: nat)
    requires
        state.well_formed(),
        state.phase is Idle || state.phase is NeedsRebuild,
        config.image_count >= 1,
    ensures
        state.rebuilding(config).well_formed(),
        state.rebuilding(config).built(images).well_formed(),
        state.rebuilding(config).built(images).phase is Idle,
        state.rebuilding(config).built(images).swapchain.image_views == images,
        state.rebuilding(config).built(images).swapchain.framebuffers == images,
        state.rebuilding(config).built(images).swapchain.images == images,
        state.rebuilding(config).built(images).command_buffers == images,
        state.rebuilding(config).built(images).frames_in_flight() == config.image_count,
        state.rebuilding(config).built(images).current_frame() < config.image_count,
{
}

/// A renderer that was started and whose swapchain is built is idle, with as
/// many frame slots as the swapchain was asked to have images and the
/// counter at the first of them.
pub proof fn fresh_renderer_is_idle(device: DeviceContext, config: SwapchainConfig, images: nat)
    requires
        device.well_formed(),
        config.image_count >= 1,
    ensures
        HalView::started(device, config).well_formed(),
        HalView::started(device, config).built(images).well_formed(),
        HalView::started(device, config).built(images).phase is Idle,
        HalView::started(device, config).built(images).current_frame() == 0,
        HalView::started(device, config).built(images).frames_in_flight() == config.image_count,
        HalView::started(device, config).built(images).swapchain.image_views == images,
        HalView::started(device, config).built(images).swapchain.framebuffers == images,
{
}

/// The state after one frame that runs through without a failure: the
/// frame is begun, image `image` is acquired, the commands are recorded and
/// submitted, and the image is presented.
pub open spec fn after_frame(state: HalView, image: u32) -> HalView {
    state.begun().0.advanced(FrameEvent::ImageAcquired { image, suboptimal: false }).0.advanced(
        FrameEvent::Recorded,
    ).0.advanced(FrameEvent::Submitted).0.advanced(FrameEvent::Presented { suboptimal: false }).0
}

/// The state after one such frame for each image of `images`, in turn.
pub open spec fn after_frames(state: HalView, images: Seq<u32>) -> HalView
    decreases images.len(),
{
    if images.len() == 0 {
        state
    } else {
        after_frame(after_frames(state, images.drop_last()), images.last())
    }
}

/// A frame that runs through without a failure leaves the loop idle again,
/// with the same swapchain, and has moved the counter on by one slot.
pub proof fn successful_frame(state: HalView, image: u32)
    requires
        state.well_formed(),
        state.phase is Idle,
        image < state.swapchain.images,
    ensures
        after_frame(state, image).well_formed(),
        after_frame(state, image).phase is Idle,
        after_frame(state, image).swapchain == state.swapchain,
        after_frame(state, image).frames_in_flight() == state.frames_in_flight(),
        after_frame(state, image).current_frame() == (state.current_frame() + 1)
            % state.frames_in_flight(),
{
}

/// The rotation of the frame slots has the period `frames_in_flight`: after
/// any number of frames that run through without a failure, the counter
/// stands at the slot it started from plus the number of frames, modulo the
/// number of slots. From a fresh state, where it starts at zero, it stands
/// at the number of frames modulo the number of slots.
pub proof fn rotation_is_periodic(state: HalView, images: Seq<u32>)
    requires
        state.well_formed(),
        state.phase is Idle,
        forall|i: int| 0 <= i < images.len() ==> images[i] < state.swapchain.images,
    ensures
        after_frames(state, images).well_formed(),
        after_frames(state, images).phase is Idle,
        after_frames(state, images).swapchain == state.swapchain,
        after_frames(state, images).frames_in_flight() == state.frames_in_flight(),
        after_frames(state, images).current_frame() == (state.current_frame() + images.len())
            % state.frames_in_flight(),
        state.current_frame() == 0 ==> after_frames(state, images).current_frame()
            == images.len() % state.frames_in_flight(),
    decreases images.len(),
{
    let n = state.frames_in_flight() as int;
    if images.len() == 0 {
        assert(state.current_frame() % state.frames_in_flight() == state.current_frame()) by {
            vstd::arithmetic::div_mod::lemma_small_mod(state.current_frame(), state.frames_in_flight());
        }
    } else {
        let before = after_frames(state, images.drop_last());
        rotation_is_periodic(state, images.drop_last());
        successful_frame(before, images.last());
        let c = state.current_frame() as int;
        let k = images.len() as int - 1;
        assert(((c + k) % n + 1) % n == (c + k + 1) % n) by {
            vstd::arithmetic::div_mod::lemma_add_mod_noop(c + k, 1, n);
            vstd::arithmetic::div_mod::lemma_mod_twice(c + k, n);
            vstd::arithmetic::div_mod::lemma_add_mod_noop((c + k) % n, 1, n);
        }
    }
}

/// What the caller hands to the renderer state in the course of its life.
pub enum Input {
    /// A frame is asked for.
    Draw,
    /// What came of the last action.
    Report(FrameEvent),
    /// The window asked for a new swapchain.
    Invalidate,
    /// The swapchain is recreated with this configuration.
    Recreate(SwapchainConfig),
    /// The new swapchain holds so many images.
    Built(nat),
}

/// The state after one input, and the action that the caller is asked for.
/// A frame that is given up asks for nothing, and so does a rebuild. A
/// rebuild begins between frames only, and only for a swapchain of at least
/// one image; it is finished only once it has begun.
pub open spec fn step(state: HalView, input: Input) -> (HalView, FrameAction) {
    match input {
        Input::Draw => state.begun(),
        Input::Report(event) => (
            state.advanced(event).0,
            match state.advanced(event).1 {
                Ok(action) => action,
                Err(_) => FrameAction::Nothing,
            },
        ),
        Input::Invalidate => (state.invalidated(), FrameAction::Nothing),
        Input::Recreate(config) => if (state.phase is Idle || state.phase is NeedsRebuild)
            && config.image_count >= 1 {
            (state.rebuilding(config), FrameAction::Nothing)
        } else {
            (state, FrameAction::Nothing)
        },
        Input::Built(images) => if state.phase is Rebuilding {
            (state.built(images), FrameAction::Nothing)
        } else {
            (state, FrameAction::Nothing)
        },
    }
}

/// The state after the first `count` of the inputs.
pub open spec fn state_at(state: HalView, inputs: Seq<Input>, count: nat) -> HalView
    decreases count,
{
    if count == 0 {
        state
    } else {
        step(state_at(state, inputs, (count - 1) as nat), inputs[count - 1]).0
    }
}

/// With this input in this state, a wait on the fence of `slot` has come to
/// its end: the frame that holds the slot had been told to wait, and the
/// caller reports what happened after the wait.
pub open spec fn completes_wait(state: HalView, input: Input, slot: usize) -> bool {
    &&& state.phase == (Phase::Acquiring { slot })
    &&& state.sync.fences[slot as int] == FenceState::Armed
    &&& input matches Input::Report(event)
    &&& (event is FenceResetFailed || event is AcquireFailed || event is ImageAcquired)
}

/// With this input in this state, the caller is asked to submit work that
/// signals the fence of `slot`.
pub open spec fn submits_with_fence(state: HalView, input: Input, slot: usize) -> bool {
    step(state, input).1 matches FrameAction::Submit(submission) && submission.fence == slot
}

/// One input keeps the state well formed. A fence is no longer armed once a
/// wait on it has come to its end, and a fence that is not armed stays so,
/// as long as its slot exists, unless work is submitted that signals it: a
/// rebuild changes nothing of the fences of the slots that stay. Work is
/// submitted only with a fence that is reset. The caller is told to wait
/// only on a fence that is armed, and to reset a fence unless it is reset
/// already.
pub proof fn step_keeps_fences(state: HalView, input: Input, slot: usize)
    requires
        state.well_formed(),
        slot < state.frames_in_flight(),
    ensures
        step(state, input).0.well_formed(),
        !(input is Recreate) ==> step(state, input).0.frames_in_flight()
            == state.frames_in_flight(),
        completes_wait(state, input, slot) ==> step(state, input).0.sync.fences[slot as int]
            != FenceState::Armed,
        state.sync.fences[slot as int] != FenceState::Armed && !submits_with_fence(
            state,
            input,
            slot,
        ) && slot < step(state, input).0.frames_in_flight() ==> step(
            state,
            input,
        ).0.sync.fences[slot as int] != FenceState::Armed,
        submits_with_fence(state, input, slot) ==> state.sync.fences[slot as int]
            == FenceState::Reset,
        step(state, input).1 matches FrameAction::Acquire { fence, wait, reset, .. } ==> {
            &&& wait == (state.sync.fences[fence as int] == FenceState::Armed)
            &&& reset == (state.sync.fences[fence as int] != FenceState::Reset)
        },
{
}

/// Every state that the inputs lead through is well formed.
pub proof fn states_are_well_formed(state: HalView, inputs: Seq<Input>, count: nat)
    requires
        state.well_formed(),
        count <= inputs.len(),
    ensures
        state_at(state, inputs, count).well_formed(),
    decreases count,
{
    if count > 0 {
        states_are_well_formed(state, inputs, (count - 1) as nat);
        step_keeps_fences(state_at(state, inputs, (count - 1) as nat), inputs[count - 1], 0);
    }
}

/// The slot exists in every state from the one after `from` inputs to the
/// one after `to` inputs.
pub open spec fn slot_exists(
    state: HalView,
    inputs: Seq<Input>,
    slot: usize,
    from: nat,
    to: nat,
) -> bool {
    forall|k: nat|
        from <= k <= to ==> slot < (#[trigger] state_at(state, inputs, k)).frames_in_flight()
}

/// A fence that is not armed after `from` inputs is still not armed after
/// `to` inputs, as long as its slot exists, unless in between the caller
/// was asked to submit work that signals it.
pub proof fn not_armed_until_submitted(
    state: HalView,
    inputs: Seq<Input>,
    slot: usize,
    from: nat,
    to: nat,
)
    requires
        state.well_formed(),
        from <= to <= inputs.len(),
        slot_exists(state, inputs, slot, from, to),
        state_at(state, inputs, from).sync.fences[slot as int] != FenceState::Armed,
        forall|k: int|
            from <= k < to ==> !submits_with_fence(
                #[trigger] state_at(state, inputs, k as nat),
                inputs[k],
                slot,
            ),
    ensures
        state_at(state, inputs, to).sync.fences[slot as int] != FenceState::Armed,
    decreases to - from,
{
    if from < to {
        not_armed_until_submitted(state, inputs, slot, from, (to - 1) as nat);
        states_are_well_formed(state, inputs, (to - 1) as nat);
        let before = state_at(state, inputs, (to - 1) as nat);
        assert(slot < before.frames_in_flight());
        assert(slot < state_at(state, inputs, to).frames_in_flight());
        assert(!submits_with_fence(before, inputs[to - 1], slot));
        step_keeps_fences(before, inputs[to - 1], slot);
    }
}

/// No fence is waited on twice without having been reset and handed to the
/// device in between: whenever a wait on the fence of a slot has come to its
/// end on two occasions, and the slot has existed from the one to the
/// other, the caller was asked between the two to submit work that signals
/// this fence, which is done only with a fence that is reset. This holds
/// across rebuilds of the swapchain as well. Since a fence is waited on only
/// while it is armed, no wait is ever asked for that nothing would end.
pub proof fn no_double_wait(
    state: HalView,
    inputs: Seq<Input>,
    slot: usize,
    first: nat,
    second: nat,
)
    requires
        state.well_formed(),
        first < second < inputs.len(),
        slot_exists(state, inputs, slot, first, second),
        completes_wait(state_at(state, inputs, first), inputs[first as int], slot),
        completes_wait(state_at(state, inputs, second), inputs[second as int], slot),
    ensures
        exists|k: int|
            first < k < second && submits_with_fence(
                #[trigger] state_at(state, inputs, k as nat),
                inputs[k],
                slot,
            ),
{
    if !(exists|k: int|
        first < k < second && submits_with_fence(
            #[trigger] state_at(state, inputs, k as nat),
            inputs[k],
            slot,
        )) {
        states_are_well_formed(state, inputs, first);
        assert(slot < state_at(state, inputs, first).frames_in_flight());
        step_keeps_fences(state_at(state, inputs, first), inputs[first as int], slot);
        assert(state_at(state, inputs, first + 1) == step(
            state_at(state, inputs, first),
            inputs[first as int],
        ).0);
        not_armed_until_submitted(state, inputs, slot, first + 1, second);
        assert(false);
    }
}

} // verus!
