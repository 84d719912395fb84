use vstd::prelude::*;
use crate::command::Command;
use crate::device::DeviceContext;
use crate::error::Error;
use crate::format::Format;
use crate::frame::FrameAction;
use crate::frame::FrameEvent;
use crate::frame::LoopControl;
use crate::frame::NO_TIMEOUT;
use crate::frame::Phase;
use crate::frame::WindowEvent;
use crate::recorder::record;
use crate::recorder::recording_of;
use crate::recorder::submission_of;
use crate::recorder::submit;
use crate::surface::formats_view;
use crate::surface::CompositeAlpha;
use crate::surface::PresentMode;
use crate::surface::Rect;
use crate::surface::SurfaceCapabilities;
use crate::surface::SwapchainConfig;
use crate::swapchain::creation_plan;
use crate::swapchain::SwapchainManager;
use crate::swapchain::SwapchainView;
use crate::sync::create_slots;
use crate::sync::FenceState;
use crate::sync::FrameSynchronizer;
use crate::sync::SyncView;

verus! {

/// The state of the renderer: the opened device, the swapchain with what
/// hangs on it, the per-frame synchronisation set, the command buffers, and
/// the phase of the presentation loop. It decides what is done next; the
/// caller does it on the device and reports what came of it.
#[derive(Debug)]
pub struct HalState {
    device: DeviceContext,
    phase: Phase,
    rebuild_requested: bool,
    sync: FrameSynchronizer,
    swapchain: SwapchainManager,
    command_buffers: usize,
    render_area: Rect,
}

/// What a renderer state stands for.
pub struct HalView {
    pub device: DeviceContext,
    pub phase: Phase,
    /// Whether the window asked for a new swapchain while a frame or a
    /// rebuild was under way.
    pub rebuild_requested: bool,
    pub sync: SyncView,
    pub swapchain: SwapchainView,
    /// The number of command buffers taken from the pool.
    pub command_buffers: nat,
    /// The area that each frame draws to.
    pub render_area: Rect,
}

/// The commands that take the command buffers `from..to` from the pool.
pub open spec fn allocate_command_buffers(from: nat, to: nat) -> Seq<Command> {
    Seq::new((to - from) as nat, |i: int| Command::AllocateCommandBuffer { index: (from + i) as usize })
}

/// The commands that hand the command buffers `from..to` back to the pool.
pub open spec fn free_command_buffers(from: nat, to: nat) -> Seq<Command> {
    Seq::new((to - from) as nat, |i: int| Command::FreeCommandBuffer { index: (from + i) as usize })
}

/// The commands that bring the number of command buffers from `have` to
/// `want`.
pub open spec fn resize_command_buffers(have: nat, want: nat) -> Seq<Command> {
    if want >= have {
        allocate_command_buffers(have, want)
    } else {
        free_command_buffers(want, have)
    }
}

/// The commands with which a renderer starts: the swapchain, the objects of
/// every frame slot, and the command pool, whose buffers can be reset one by
/// one.
pub open spec fn startup_plan(config: SwapchainConfig) -> Seq<Command> {
    seq![Command::CreateSwapchain(config)] + create_slots(0, config.image_count as nat)
        + seq![Command::CreateCommandPool { individual_reset: true }]
}

impl HalView {
    /// The number of frames that may be in flight.
    pub open spec fn frames_in_flight(self) -> nat {
        self.sync.frames_in_flight()
    }

    /// The slot that the next frame takes.
    pub open spec fn current_frame(self) -> nat {
        self.sync.current_frame
    }

    /// What holds of every renderer state.
    pub open spec fn well_formed(self) -> bool {
        &&& self.device.well_formed()
        &&& self.sync.well_formed()
        &&& self.swapchain.well_formed()
        &&& self.swapchain.config is Some
        &&& self.sync.frames_in_flight() == self.swapchain.config->0.image_count
        &&& self.phase is Rebuilding <==> !self.swapchain.ready
        &&& self.phase is Idle || self.phase is NeedsRebuild ==> !self.rebuild_requested
        &&& self.swapchain.ready ==> self.command_buffers == self.swapchain.images
        &&& match self.phase {
            Phase::Acquiring { slot } => slot < self.sync.frames_in_flight(),
            Phase::Recording { slot, image } => {
                &&& slot < self.sync.frames_in_flight()
                &&& image < self.swapchain.images
                &&& self.sync.fences[slot as int] == FenceState::Reset
            },
            Phase::Submitted { slot, image } => {
                &&& slot < self.sync.frames_in_flight()
                &&& image < self.swapchain.images
            },
            Phase::Presenting { slot, image } => {
                &&& slot < self.sync.frames_in_flight()
                &&& image < self.swapchain.images
            },
            _ => true,
        }
    }

    /// The state with which a renderer starts on an opened device: the frame
    /// slots are fresh, the swapchain is being created.
    pub open spec fn started(device: DeviceContext, config: SwapchainConfig) -> HalView {
        HalView {
            device,
            phase: Phase::Rebuilding,
            rebuild_requested: false,
            sync: SyncView::fresh(config.image_count as nat),
            swapchain: SwapchainView::pending(config),
            command_buffers: 0,
            render_area: config.extent.rect(),
        }
    }

    /// The state once the frame under way is over, or the rebuild: the loop
    /// is idle, unless the window asked for a new swapchain meanwhile.
    pub open spec fn settled(self) -> HalView {
        HalView {
            phase: if self.rebuild_requested {
                Phase::NeedsRebuild
            } else {
                Phase::Idle
            },
            rebuild_requested: false,
            ..self
        }
    }

    /// The state once the swapchain was found not to fit the surface.
    pub open spec fn stale(self) -> HalView {
        HalView { phase: Phase::NeedsRebuild, rebuild_requested: false, ..self }
    }

    /// The state after the window has asked for a new swapchain. Between
    /// frames the rebuild is due at once; a frame or a rebuild under way is
    /// finished first.
    pub open spec fn invalidated(self) -> HalView {
        match self.phase {
            Phase::Idle => HalView { phase: Phase::NeedsRebuild, ..self },
            Phase::NeedsRebuild => self,
            _ => HalView { rebuild_requested: true, ..self },
        }
    }

    /// The state after a window event, and whether the loop goes on. A
    /// request to close ends the loop. Keys and the pointer change nothing.
    pub open spec fn observed(self, event: WindowEvent) -> (HalView, LoopControl) {
        if event is CloseRequested {
            (self, LoopControl::Exit)
        } else if event.invalidates_swapchain() {
            (self.invalidated(), LoopControl::Continue)
        } else {
            (self, LoopControl::Continue)
        }
    }

    /// The state after a frame was asked for, and what is to be done for it.
    /// Between frames the frame takes the current slot and the counter moves
    /// on at once. The fence of the slot is waited on only where it is
    /// armed, and then without a time limit; it is reset unless it is reset
    /// already. With a stale swapchain the answer is to rebuild; while a
    /// frame or a rebuild is under way there is nothing to do.
    pub open spec fn begun(self) -> (HalView, FrameAction) {
        match self.phase {
            Phase::Idle => {
                let slot = self.sync.current_frame as usize;
                (
                    HalView { phase: Phase::Acquiring { slot }, sync: self.sync.advanced(), ..self },
                    FrameAction::Acquire {
                        fence: slot,
                        image_available: slot,
                        wait: self.sync.fences[slot as int] == FenceState::Armed,
                        reset: self.sync.fences[slot as int] != FenceState::Reset,
                        timeout_ns: NO_TIMEOUT,
                    },
                )
            },
            Phase::NeedsRebuild => (self, FrameAction::Rebuild),
            _ => (self, FrameAction::Nothing),
        }
    }

    /// The state after the fence of the frame in slot `slot` could not be
    /// reset: the frame is over, and the fence is known to be signaled.
    pub open spec fn reset_failed(self, slot: usize) -> HalView {
        HalView { sync: self.sync.with_fence_waited(slot as int), ..self }.settled()
    }

    /// The state after the image of the frame in slot `slot` was asked for
    /// in vain: the fence of the slot is reset, nothing was submitted, and
    /// the swapchain has to be recreated.
    pub open spec fn acquisition_failed(self, slot: usize) -> HalView {
        HalView { sync: self.sync.with_fence_reset(slot as int), ..self }.stale()
    }

    /// The state after the caller has reported what came of the last action,
    /// and what is to be done next or the error with which the frame was
    /// given up. A report that does not answer the last action changes
    /// nothing.
    pub open spec fn advanced(self, event: FrameEvent) -> (HalView, Result<FrameAction, Error>) {
        match self.phase {
            Phase::Acquiring { slot } => match event {
                FrameEvent::FenceWaitFailed => (self.settled(), Err(Error::FenceWaitError)),
                FrameEvent::FenceResetFailed => (
                    self.reset_failed(slot),
                    Err(Error::FenceResetError),
                ),
                FrameEvent::AcquireFailed => (
                    self.acquisition_failed(slot),
                    Err(Error::ImageAcquisitionFailed),
                ),
                FrameEvent::ImageAcquired { image, suboptimal } => if suboptimal || image
                    >= self.swapchain.images {
                    (self.acquisition_failed(slot), Err(Error::ImageAcquisitionFailed))
                } else {
                    (
                        HalView {
                            phase: Phase::Recording { slot, image },
                            sync: self.sync.with_fence_reset(slot as int),
                            ..self
                        },
                        Ok(FrameAction::Record(recording_of(image, self.render_area))),
                    )
                },
                _ => (self, Ok(FrameAction::Nothing)),
            },
            Phase::Recording { slot, image } => match event {
                FrameEvent::Recorded => (
                    HalView {
                        phase: Phase::Submitted { slot, image },
                        sync: self.sync.with_submission(slot as int),
                        ..self
                    },
                    Ok(FrameAction::Submit(submission_of(image, slot))),
                ),
                _ => (self, Ok(FrameAction::Nothing)),
            },
            Phase::Submitted { slot, image } => match event {
                FrameEvent::Submitted => (
                    HalView { phase: Phase::Presenting { slot, image }, ..self },
                    Ok(FrameAction::Present { image, wait_on: slot }),
                ),
                _ => (self, Ok(FrameAction::Nothing)),
            },
            Phase::Presenting { slot, image } => match event {
                FrameEvent::Presented { suboptimal } => if suboptimal {
                    (self.stale(), Err(Error::PresentFailed))
                } else {
                    (self.settled(), Ok(FrameAction::Nothing))
                },
                FrameEvent::PresentFailed => (self.stale(), Err(Error::PresentFailed)),
                _ => (self, Ok(FrameAction::Nothing)),
            },
            _ => (self, Ok(FrameAction::Nothing)),
        }
    }

    /// The state after a rebuild with the given configuration has begun:
    /// the swapchain is torn down and a new one is being created, the frame
    /// slots are as many as the new swapchain is asked to have images, and
    /// the counter has moved on within them.
    pub open spec fn rebuilding(self, config: SwapchainConfig) -> HalView {
        HalView {
            phase: Phase::Rebuilding,
            rebuild_requested: false,
            sync: self.sync.resized(config.image_count as nat),
            swapchain: SwapchainView::pending(config),
            render_area: config.extent.rect(),
            ..self
        }
    }

    /// The commands with which a rebuild begins: the teardown of what
    /// exists, the change of the frame slots, the new swapchain.
    pub open spec fn rebuild_plan(self, config: SwapchainConfig) -> Seq<Command> {
        self.swapchain.teardown_plan() + self.sync.resize_plan(config.image_count as nat)
            + seq![Command::CreateSwapchain(config)]
    }

    /// The state once the new swapchain is known to hold `images` images:
    /// it has its views and framebuffers, and there is a command buffer for
    /// each image.
    pub open spec fn built(self, images: nat) -> HalView {
        HalView {
            swapchain: SwapchainView::built(self.swapchain.config->0, images),
            command_buffers: images,
            ..self
        }.settled()
    }

    /// The commands that finish a rebuild for a swapchain of `images`
    /// images.
    pub open spec fn build_plan(self, images: nat) -> Seq<Command> {
        creation_plan(self.swapchain.config->0, images) + resize_command_buffers(
            self.command_buffers,
            images,
        )
    }

    /// The commands that destroy everything, those first that depend on
    /// others, the device and the instance last.
    pub open spec fn shutdown_plan(self) -> Seq<Command> {
        seq![Command::WaitIdle] + self.swapchain.teardown_plan() + self.sync.destroy_plan()
            + seq![Command::DestroyCommandPool, Command::DestroyDevice, Command::DestroyInstance]
    }
}

impl View for HalState {
    type V = HalView;

    closed spec fn view(&self) -> HalView {
        HalView {
            device: self.device,
            phase: self.phase,
            rebuild_requested: self.rebuild_requested,
            sync: self.sync@,
            swapchain: self.swapchain@,
            command_buffers: self.command_buffers as nat,
            render_area: self.render_area,
        }
    }
}

/// Appends the commands that bring the number of command buffers from
/// `have` to `want`.
fn push_command_buffers(plan: &mut Vec<Command>, have: usize, want: usize)
    ensures
        final(plan)@ == old(plan)@ + resize_command_buffers(have as nat, want as nat),
{
    let ghost head = plan@;
    if want >= have {
        let mut i: usize = have;
        while i < want
            invariant
                have <= i <= want,
                plan@ == head + allocate_command_buffers(have as nat, i as nat),
            decreases want - i,
        {
            plan.push(Command::AllocateCommandBuffer { index: i });
            assert(plan@ =~= head + allocate_command_buffers(have as nat, (i + 1) as nat));
            i += 1;
        }
    } else {
        let mut i: usize = want;
        while i < have
            invariant
                want <= i <= have,
                plan@ == head + free_command_buffers(want as nat, i as nat),
            decreases have - i,
        {
            plan.push(Command::FreeCommandBuffer { index: i });
            assert(plan@ =~= head + free_command_buffers(want as nat, (i + 1) as nat));
            i += 1;
        }
    }
}

impl HalState {
    /// Starts a renderer on an opened device, for a surface that reports
    /// `caps`, `preferred`, `modes` and `alphas`. The configuration of the
    /// swapchain is chosen, and there are as many frame slots as the
    /// swapchain is asked to have images. Returns the state together with
    /// the commands that create the swapchain, the objects of the frame
    /// slots and the command pool. The state waits in `Rebuilding` to be
    /// told by `swapchain_created` how many images the swapchain holds.
    pub fn new(
        device: DeviceContext,
        caps: &SurfaceCapabilities,
        preferred: &Option<Vec<Format>>,
        modes: &Vec<PresentMode>,
        alphas: &Vec<CompositeAlpha>,
    ) -> (r: Result<(HalState, Vec<Command>), Error>)
        requires
            device.well_formed(),
            caps.well_formed(),
            caps.max_image_count >= 2,
        ensures
            match SwapchainConfig::chosen(*caps, formats_view(*preferred), modes@, alphas@) {
                Ok(config) => {
                    &&& r is Ok
                    &&& r->Ok_0.0@ == HalView::started(device, config)
                    &&& r->Ok_0.0@.well_formed()
                    &&& r->Ok_0.1@ == startup_plan(config)
                },
                Err(e) => r is Err && r->Err_0 == e,
            },
    {
        let config = match SwapchainConfig::select(caps, preferred, modes, alphas) {
            Ok(config) => config,
            Err(e) => {
                return Err(e);
            },
        };
        let (swapchain, mut plan) = SwapchainManager::create(config);
        let (sync, mut slots) = FrameSynchronizer::new(config.image_count as usize);
        plan.append(&mut slots);
        plan.push(Command::CreateCommandPool { individual_reset: true });
        let state = HalState {
            device,
            phase: Phase::Rebuilding,
            rebuild_requested: false,
            sync,
            swapchain,
            command_buffers: 0,
            render_area: config.extent.render_area(),
        };
        assert(plan@ =~= startup_plan(config));
        Ok((state, plan))
    }

    /// Where the presentation loop stands.
    pub fn phase(&self) -> (r: Phase)
        ensures
            r == self@.phase,
    {
        self.phase
    }

    /// The slot that the next frame takes.
    pub fn current_frame(&self) -> (r: usize)
        ensures
            r == self@.current_frame(),
    {
        self.sync.current_frame()
    }

    /// The number of frames that may be in flight.
    pub fn frames_in_flight(&self) -> (r: usize)
        ensures
            r == self@.frames_in_flight(),
    {
        self.sync.frames_in_flight()
    }

    /// The area that each frame draws to.
    pub fn render_area(&self) -> (r: Rect)
        ensures
            r == self@.render_area,
    {
        self.render_area
    }

    /// The opened device.
    pub fn device(&self) -> (r: DeviceContext)
        ensures
            r == self@.device,
    {
        self.device
    }

    /// The configuration of the swapchain that exists or is being created.
    pub fn config(&self) -> (r: Option<SwapchainConfig>)
        ensures
            r == self@.swapchain.config,
    {
        self.swapchain.config()
    }

    /// The number of images of the swapchain.
    pub fn image_count(&self) -> (r: usize)
        ensures
            r == self@.swapchain.images,
    {
        self.swapchain.image_count()
    }

    /// The number of image views.
    pub fn image_view_count(&self) -> (r: usize)
        ensures
            r == self@.swapchain.image_views,
    {
        self.swapchain.image_view_count()
    }

    /// The number of framebuffers.
    pub fn framebuffer_count(&self) -> (r: usize)
        ensures
            r == self@.swapchain.framebuffers,
    {
        self.swapchain.framebuffer_count()
    }

    /// The number of command buffers.
    pub fn command_buffer_count(&self) -> (r: usize)
        ensures
            r == self@.command_buffers,
    {
        self.command_buffers
    }

    /// Ends the frame or the rebuild under way.
    fn settle(&mut self)
        ensures
            final(self)@ == old(self)@.settled(),
    {
        if self.rebuild_requested {
            self.phase = Phase::NeedsRebuild;
        } else {
            self.phase = Phase::Idle;
        }
        self.rebuild_requested = false;
    }

    /// Marks the swapchain as stale.
    fn mark_stale(&mut self)
        ensures
            final(self)@ == old(self)@.stale(),
    {
        self.phase = Phase::NeedsRebuild;
        self.rebuild_requested = false;
    }

    /// Takes note that the window asked for a new swapchain: it changed its
    /// size or its scale factor, or it was damaged. Between frames the
    /// rebuild is due at once. A frame under way is never cut short: the
    /// rebuild is due when it is over.
    pub fn invalidate(&mut self)
        requires
            old(self)@.well_formed(),
        ensures
            final(self)@ == old(self)@.invalidated(),
            final(self)@.well_formed(),
    {
        match self.phase {
            Phase::Idle => {
                self.phase = Phase::NeedsRebuild;
            },
            Phase::NeedsRebuild => {},
            _ => {
                self.rebuild_requested = true;
            },
        }
    }

    /// Takes in one event of the window, and says whether the loop goes on.
    /// A request to close ends the loop; a new size, a new scale factor and
    /// a damaged window all ask for a new swapchain; keys and the pointer
    /// change nothing.
    pub fn observe(&mut self, event: WindowEvent) -> (r: LoopControl)
        requires
            old(self)@.well_formed(),
        ensures
            final(self)@ == old(self)@.observed(event).0,
            r == old(self)@.observed(event).1,
            final(self)@.well_formed(),
    {
        match event {
            WindowEvent::CloseRequested => LoopControl::Exit,
            _ => {
                if event.needs_rebuild() {
                    self.invalidate();
                }
                LoopControl::Continue
            },
        }
    }

    /// Begins a frame. Between frames the frame takes the next slot in
    /// rotation, and the counter moves on before anything is tried that can
    /// fail. The caller is asked to wait on the slot's fence, to reset it
    /// and to acquire an image. The wait is left out where the fence was
    /// waited on already and nothing was submitted with it since, the reset
    /// where the fence is still reset from a frame that was given up: no
    /// fence is waited on that nothing will signal. With a stale swapchain
    /// the caller is asked to rebuild; while a frame or a rebuild is under
    /// way nothing is done.
    pub fn draw_clear_frame(&mut self) -> (action: FrameAction)
        requires
            old(self)@.well_formed(),
        ensures
            final(self)@ == old(self)@.begun().0,
            action == old(self)@.begun().1,
            final(self)@.well_formed(),
    {
        match self.phase {
            Phase::Idle => {
                let slot = self.sync.acquire_slot();
                self.phase = Phase::Acquiring { slot: slot.fence };
                FrameAction::Acquire {
                    fence: slot.fence,
                    image_available: slot.image_available,
                    wait: slot.wait,
                    reset: slot.reset,
                    timeout_ns: NO_TIMEOUT,
                }
            },
            Phase::NeedsRebuild => FrameAction::Rebuild,
            _ => FrameAction::Nothing,
        }
    }

    /// Gives up the frame in slot `slot` because no image could be acquired.
    fn fail_acquisition(&mut self, slot: usize) -> (r: Result<FrameAction, Error>)
        requires
            old(self)@.well_formed(),
            old(self)@.phase == (Phase::Acquiring { slot }),
        ensures
            final(self)@ == old(self)@.acquisition_failed(slot),
            final(self)@.well_formed(),
            r == Err::<FrameAction, Error>(Error::ImageAcquisitionFailed),
    {
        self.sync.fence_reset(slot);
        self.mark_stale();
        Err(Error::ImageAcquisitionFailed)
    }

    /// Takes in what came of the last action and says what is to be done
    /// next. A failed wait or reset of the fence costs the frame and nothing
    /// else. A failed acquisition, a failed presentation and a swapchain
    /// that is reported as suboptimal cost the frame and make a rebuild due
    /// before the next one. A frame that is given up records and submits
    /// nothing more. A report that does not answer the last action is
    /// passed over.
    pub fn advance(&mut self, event: FrameEvent) -> (r: Result<FrameAction, Error>)
        requires
            old(self)@.well_formed(),
        ensures
            final(self)@ == old(self)@.advanced(event).0,
            r == old(self)@.advanced(event).1,
            final(self)@.well_formed(),
    {
        match self.phase {
            Phase::Acquiring { slot } => match event {
                FrameEvent::FenceWaitFailed => {
                    self.settle();
                    Err(Error::FenceWaitError)
                },
                FrameEvent::FenceResetFailed => {
                    self.sync.fence_waited(slot);
                    self.settle();
                    Err(Error::FenceResetError)
                },
                FrameEvent::AcquireFailed => self.fail_acquisition(slot),
                FrameEvent::ImageAcquired { image, suboptimal } => {
                    if suboptimal || image as usize >= self.swapchain.image_count() {
                        self.fail_acquisition(slot)
                    } else {
                        self.sync.fence_reset(slot);
                        self.phase = Phase::Recording { slot, image };
                        Ok(FrameAction::Record(record(image, self.render_area)))
                    }
                },
                _ => Ok(FrameAction::Nothing),
            },
            Phase::Recording { slot, image } => match event {
                FrameEvent::Recorded => {
                    self.sync.submitted(slot);
                    self.phase = Phase::Submitted { slot, image };
                    Ok(FrameAction::Submit(submit(image, slot)))
                },
                _ => Ok(FrameAction::Nothing),
            },
            Phase::Submitted { slot, image } => match event {
                FrameEvent::Submitted => {
                    self.phase = Phase::Presenting { slot, image };
                    Ok(FrameAction::Present { image, wait_on: slot })
                },
                _ => Ok(FrameAction::Nothing),
            },
            Phase::Presenting { slot, image } => match event {
                FrameEvent::Presented { suboptimal } => {
                    if suboptimal {
                        self.mark_stale();
                        Err(Error::PresentFailed)
                    } else {
                        self.settle();
                        Ok(FrameAction::Nothing)
                    }
                },
                FrameEvent::PresentFailed => {
                    self.mark_stale();
                    Err(Error::PresentFailed)
                },
                _ => Ok(FrameAction::Nothing),
            },
            _ => Ok(FrameAction::Nothing),
        }
    }

    /// Tears the swapchain down with what hangs on it. Returns the commands
    /// of the teardown, in the order of the dependencies.
    fn cleanup_swapchain(&mut self) -> (plan: Vec<Command>)
        ensures
            final(self)@ == (HalView { swapchain: SwapchainView::absent(), ..old(self)@ }),
            plan@ == old(self)@.swapchain.teardown_plan(),
    {
        self.swapchain.destroy()
    }

    /// Begins the rebuild of the swapchain for what the surface reports now.
    /// The new configuration is chosen first: where there is none, the
    /// error is returned and nothing has changed. Else everything that
    /// hangs on the old swapchain is torn down with it, the frame slots are
    /// brought to the number of images that the new swapchain is asked to
    /// have, and the counter moves on within them. What is known of the
    /// fences of the slots that stay is kept: none of them is reset.
    /// Returns the commands of the teardown, of the change of slots and of
    /// the creation of the swapchain. The state waits in `Rebuilding` to be
    /// told by `swapchain_created` how many images the swapchain holds.
    pub fn recreate_swapchain(
        &mut self,
        caps: &SurfaceCapabilities,
        preferred: &Option<Vec<Format>>,
        modes: &Vec<PresentMode>,
        alphas: &Vec<CompositeAlpha>,
    ) -> (r: Result<Vec<Command>, Error>)
        requires
            old(self)@.well_formed(),
            old(self)@.phase is Idle || old(self)@.phase is NeedsRebuild,
            caps.well_formed(),
            caps.max_image_count >= 2,
        ensures
            match SwapchainConfig::chosen(*caps, formats_view(*preferred), modes@, alphas@) {
                Ok(config) => {
                    &&& r is Ok
                    &&& r->Ok_0@ == old(self)@.rebuild_plan(config)
                    &&& final(self)@ == old(self)@.rebuilding(config)
                },
                Err(e) => r is Err && r->Err_0 == e && final(self)@ == old(self)@,
            },
            final(self)@.well_formed(),
    {
        let config = match SwapchainConfig::select(caps, preferred, modes, alphas) {
            Ok(config) => config,
            Err(e) => {
                return Err(e);
            },
        };
        let mut plan = self.cleanup_swapchain();
        let mut slots = self.sync.resize(config.image_count as usize);
        plan.append(&mut slots);
        let (swapchain, mut create) = SwapchainManager::create(config);
        plan.append(&mut create);
        self.swapchain = swapchain;
        self.phase = Phase::Rebuilding;
        self.rebuild_requested = false;
        self.render_area = config.extent.render_area();
        assert(plan@ =~= old(self)@.rebuild_plan(config));
        Ok(plan)
    }

    /// Finishes startup or a rebuild: the swapchain that was asked for
    /// exists and holds `images` images. Returns the commands that create
    /// the render pass, one view for each image and one framebuffer for
    /// each view, and that bring the command buffers to one for each image.
    /// After this the loop is idle, or a rebuild is due again where the
    /// window asked for one meanwhile.
    pub fn swapchain_created(&mut self, images: usize) -> (plan: Vec<Command>)
        requires
            old(self)@.well_formed(),
            old(self)@.phase is Rebuilding,
        ensures
            final(self)@ == old(self)@.built(images as nat),
            plan@ == old(self)@.build_plan(images as nat),
            final(self)@.well_formed(),
            final(self)@.swapchain.image_views == images,
            final(self)@.swapchain.framebuffers == images,
            final(self)@.swapchain.images == images,
    {
        let mut plan = self.swapchain.build(images);
        push_command_buffers(&mut plan, self.command_buffers, images);
        self.command_buffers = images;
        self.settle();
        plan
    }

    /// Ends the renderer. Returns the commands that destroy everything:
    /// after the device has come to rest the swapchain with what hangs on
    /// it, then the fences and semaphores, the command pool, and last the
    /// device and the instance.
    pub fn teardown(self) -> (plan: Vec<Command>)
        ensures
            plan@ == self@.shutdown_plan(),
    {
        let mut state = self;
        let mut plan: Vec<Command> = Vec::new();
        plan.push(Command::WaitIdle);
        let mut swapchain = state.swapchain.destroy();
        plan.append(&mut swapchain);
        let mut slots = state.sync.destroy();
        plan.append(&mut slots);
        plan.push(Command::DestroyCommandPool);
        plan.push(Command::DestroyDevice);
        plan.push(Command::DestroyInstance);
        assert(plan@ =~= self@.shutdown_plan());
        plan
    }
}

} // verus!
