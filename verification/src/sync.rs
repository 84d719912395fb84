use vstd::prelude::*;
use crate::command::Command;

verus! {

/// What is known of a fence.
#[derive(Clone, Copy, Debug, PartialEq, Eq, Structural)]
pub enum FenceState {
    /// The fence was created signaled, or work was submitted that signals
    /// it: a wait on it ends, and it has to be reset before it is used.
    Armed,
    /// The fence was waited on and is still signaled: it has to be reset
    /// before it is used, and need not be waited on again.
    Signaled,
    /// The fence was reset and not handed to the device since: it can be
    /// used as it is, and a wait on it would never end.
    Reset,
}

/// The per-frame synchronisation set: for each frame that may be in flight
/// one fence and two semaphores, and the counter that says which slot the
/// next frame takes. The set also remembers what is known of each fence.
#[derive(Debug)]
pub struct FrameSynchronizer {
    current_frame: usize,
    fences: Vec<FenceState>,
}

/// What a frame synchronizer stands for.
pub struct SyncView {
    /// The slot that the next frame takes.
    pub current_frame: nat,
    /// What is known of the fence of each slot.
    pub fences: Seq<FenceState>,
}

/// The objects of one slot that a frame works with.
#[derive(Clone, Copy, Debug, PartialEq, Eq, Structural)]
pub struct FrameSlot {
    /// The place of the slot's in-flight fence.
    pub fence: usize,
    /// The place of the slot's image-available semaphore.
    pub image_available: usize,
    /// The place of the slot's render-finished semaphore.
    pub render_finished: usize,
    /// Whether the fence has to be waited on before the slot is used: only
    /// an armed fence is waited on.
    pub wait: bool,
    /// Whether the fence has to be reset before the slot is used. It has
    /// not where it is still reset from a frame that was given up before it
    /// submitted anything.
    pub reset: bool,
}

/// The commands that create the objects of slot `slot`.
pub open spec fn create_slot(slot: nat) -> Seq<Command> {
    seq![
        Command::CreateFence { slot: slot as usize },
        Command::CreateImageAvailable { slot: slot as usize },
        Command::CreateRenderFinished { slot: slot as usize },
    ]
}

/// The commands that create the objects of the slots `from..to`, slot by slot.
pub open spec fn create_slots(from: nat, to: nat) -> Seq<Command>
    decreases to,
{
    if to <= from {
        Seq::empty()
    } else {
        create_slots(from, (to - 1) as nat) + create_slot((to - 1) as nat)
    }
}

/// The commands that destroy the objects of slot `slot`.
pub open spec fn destroy_slot(slot: nat) -> Seq<Command> {
    seq![
        Command::DestroyFence { slot: slot as usize },
        Command::DestroyImageAvailable { slot: slot as usize },
        Command::DestroyRenderFinished { slot: slot as usize },
    ]
}

/// The commands that destroy the objects of the slots `from..to`, slot by slot.
pub open spec fn destroy_slots(from: nat, to: nat) -> Seq<Command>
    decreases to,
{
    if to <= from {
        Seq::empty()
    } else {
        destroy_slots(from, (to - 1) as nat) + destroy_slot((to - 1) as nat)
    }
}

/// The commands that destroy the fences of the slots `0..count`.
pub open spec fn destroy_fences(count: nat) -> Seq<Command> {
    Seq::new(count, |i: int| Command::DestroyFence { slot: i as usize })
}

/// The commands that destroy the image-available semaphores of the slots
/// `0..count`.
pub open spec fn destroy_image_available(count: nat) -> Seq<Command> {
    Seq::new(count, |i: int| Command::DestroyImageAvailable { slot: i as usize })
}

/// The commands that destroy the render-finished semaphores of the slots
/// `0..count`.
pub open spec fn destroy_render_finished(count: nat) -> Seq<Command> {
    Seq::new(count, |i: int| Command::DestroyRenderFinished { slot: i as usize })
}

impl SyncView {
    /// The number of frames that may be in flight: the number of slots.
    pub open spec fn frames_in_flight(self) -> nat {
        self.fences.len()
    }

    /// There is a slot, and the counter points at one.
    pub open spec fn well_formed(self) -> bool {
        0 < self.fences.len() && self.current_frame < self.fences.len()
    }

    /// A fresh set of `frames_in_flight` slots: the counter at the first
    /// slot, every fence created signaled.
    pub open spec fn fresh(frames_in_flight: nat) -> SyncView {
        SyncView {
            current_frame: 0,
            fences: Seq::new(frames_in_flight, |i: int| FenceState::Armed),
        }
    }

    /// The set after a frame has taken its slot: the counter has moved on by
    /// one and has started again after the last slot.
    pub open spec fn advanced(self) -> SyncView {
        SyncView {
            current_frame: (self.current_frame + 1) % self.fences.len(),
            fences: self.fences,
        }
    }

    /// The set with what is known of the fence of `slot` replaced.
    pub open spec fn with_fence(self, slot: int, state: FenceState) -> SyncView {
        SyncView { current_frame: self.current_frame, fences: self.fences.update(slot, state) }
    }

    /// The set after the fence of `slot` was waited on, where it had to be,
    /// but could not be reset: the fence is still signaled, unless no reset
    /// was due.
    pub open spec fn with_fence_waited(self, slot: int) -> SyncView {
        if self.fences[slot] == FenceState::Reset {
            self
        } else {
            self.with_fence(slot, FenceState::Signaled)
        }
    }

    /// The set after the fence of `slot` was reset.
    pub open spec fn with_fence_reset(self, slot: int) -> SyncView {
        self.with_fence(slot, FenceState::Reset)
    }

    /// The set after work was submitted that signals the fence of `slot`.
    pub open spec fn with_submission(self, slot: int) -> SyncView {
        self.with_fence(slot, FenceState::Armed)
    }

    /// The set brought to `frames_in_flight` slots: the slots that stay keep
    /// what is known of their fences, new slots get signaled fences, and the
    /// counter moves on by one within the new number of slots.
    pub open spec fn resized(self, frames_in_flight: nat) -> SyncView {
        SyncView {
            current_frame: (self.current_frame + 1) % frames_in_flight,
            fences: Seq::new(
                frames_in_flight,
                |i: int|
                    if i < self.fences.len() {
                        self.fences[i]
                    } else {
                        FenceState::Armed
                    },
            ),
        }
    }

    /// The commands that bring the device's objects from the slots of this
    /// set to `frames_in_flight` slots: new slots are created, slots that
    /// are no longer needed are destroyed.
    pub open spec fn resize_plan(self, frames_in_flight: nat) -> Seq<Command> {
        if frames_in_flight >= self.fences.len() {
            create_slots(self.fences.len(), frames_in_flight)
        } else {
            destroy_slots(frames_in_flight, self.fences.len())
        }
    }

    /// The set without any slot.
    pub open spec fn destroyed() -> SyncView {
        SyncView { current_frame: 0, fences: Seq::empty() }
    }

    /// The commands that destroy every object of the set: the fences, then
    /// the image-available semaphores, then the render-finished semaphores.
    pub open spec fn destroy_plan(self) -> Seq<Command> {
        destroy_fences(self.fences.len()) + destroy_image_available(self.fences.len())
            + destroy_render_finished(self.fences.len())
    }
}

impl View for FrameSynchronizer {
    type V = SyncView;

    closed spec fn view(&self) -> SyncView {
        SyncView { current_frame: self.current_frame as nat, fences: self.fences@ }
    }
}

impl FrameSynchronizer {
    /// A set of `frames_in_flight` slots, with the commands that create its
    /// objects: for each slot the fence, signaled, then the two semaphores.
    pub fn new(frames_in_flight: usize) -> (r: (FrameSynchronizer, Vec<Command>))
        ensures
            r.0@ == SyncView::fresh(frames_in_flight as nat),
            r.1@ == create_slots(0, frames_in_flight as nat),
            frames_in_flight > 0 ==> r.0@.well_formed(),
    {
        let mut fences: Vec<FenceState> = Vec::new();
        let mut plan: Vec<Command> = Vec::new();
        let mut i: usize = 0;
        while i < frames_in_flight
            invariant
                i <= frames_in_flight,
                fences@ == Seq::new(i as nat, |k: int| FenceState::Armed),
                plan@ == create_slots(0, i as nat),
            decreases frames_in_flight - i,
        {
            fences.push(FenceState::Armed);
            plan.push(Command::CreateFence { slot: i });
            plan.push(Command::CreateImageAvailable { slot: i });
            plan.push(Command::CreateRenderFinished { slot: i });
            assert(fences@ =~= Seq::new((i + 1) as nat, |k: int| FenceState::Armed));
            assert(plan@ =~= create_slots(0, i as nat) + create_slot(i as nat));
            i += 1;
        }
        (FrameSynchronizer { current_frame: 0, fences }, plan)
    }

    /// The slot that the next frame takes.
    pub fn current_frame(&self) -> (r: usize)
        ensures
            r == self@.current_frame,
    {
        self.current_frame
    }

    /// The number of frames that may be in flight.
    pub fn frames_in_flight(&self) -> (r: usize)
        ensures
            r == self@.frames_in_flight(),
    {
        self.fences.len()
    }

    /// What is known of the fence of `slot`.
    pub fn fence_state(&self, slot: usize) -> (r: FenceState)
        requires
            slot < self@.frames_in_flight(),
        ensures
            r == self@.fences[slot as int],
    {
        self.fences[slot]
    }

    /// Hands out the slot of the next frame and moves the counter on at
    /// once, before anything is tried that can fail: a frame that is given
    /// up does not take the same slot again.
    pub fn acquire_slot(&mut self) -> (slot: FrameSlot)
        requires
            old(self)@.well_formed(),
        ensures
            final(self)@ == old(self)@.advanced(),
            final(self)@.well_formed(),
            slot.fence == old(self)@.current_frame,
            slot.image_available == old(self)@.current_frame,
            slot.render_finished == old(self)@.current_frame,
            slot.wait == (old(self)@.fences[old(self)@.current_frame as int] == FenceState::Armed),
            slot.reset == (old(self)@.fences[old(self)@.current_frame as int] != FenceState::Reset),
    {
        let count = self.fences.len();
        let index = self.current_frame;
        let state = self.fences[index];
        self.current_frame = (index + 1) % count;
        FrameSlot {
            fence: index,
            image_available: index,
            render_finished: index,
            wait: state == FenceState::Armed,
            reset: state != FenceState::Reset,
        }
    }

    /// Records that the fence of `slot` was waited on, where it had to be,
    /// but could not be reset.
    pub fn fence_waited(&mut self, slot: usize)
        requires
            slot < old(self)@.frames_in_flight(),
        ensures
            final(self)@ == old(self)@.with_fence_waited(slot as int),
    {
        if self.fences[slot] != FenceState::Reset {
            self.fences.set(slot, FenceState::Signaled);
        }
    }

    /// Records that the fence of `slot` was reset.
    pub fn fence_reset(&mut self, slot: usize)
        requires
            slot < old(self)@.frames_in_flight(),
        ensures
            final(self)@ == old(self)@.with_fence_reset(slot as int),
    {
        self.fences.set(slot, FenceState::Reset);
    }

    /// Records that work was submitted that signals the fence of `slot`.
    pub fn submitted(&mut self, slot: usize)
        requires
            slot < old(self)@.frames_in_flight(),
        ensures
            final(self)@ == old(self)@.with_submission(slot as int),
    {
        self.fences.set(slot, FenceState::Armed);
    }

    /// Brings the set to `frames_in_flight` slots and moves the counter into
    /// the new range. Returns the commands that create the objects of the
    /// new slots or destroy those of the slots that went.
    pub fn resize(&mut self, frames_in_flight: usize) -> (plan: Vec<Command>)
        requires
            frames_in_flight > 0,
            old(self)@.well_formed(),
        ensures
            final(self)@ == old(self)@.resized(frames_in_flight as nat),
            final(self)@.well_formed(),
            final(self)@.frames_in_flight() == frames_in_flight,
            plan@ == old(self)@.resize_plan(frames_in_flight as nat),
    {
        let ghost before = self@;
        let have = self.fences.len();
        let mut plan: Vec<Command> = Vec::new();
        if frames_in_flight >= have {
            let mut i: usize = have;
            while i < frames_in_flight
                invariant
                    have <= i <= frames_in_flight,
                    have == before.fences.len(),
                    self.fences@.len() == i,
                    self.current_frame == before.current_frame,
                    forall|k: int| 0 <= k < have ==> self.fences@[k] == before.fences[k],
                    forall|k: int| have <= k < i ==> self.fences@[k] == FenceState::Armed,
                    plan@ == create_slots(have as nat, i as nat),
                decreases frames_in_flight - i,
            {
                self.fences.push(FenceState::Armed);
                plan.push(Command::CreateFence { slot: i });
                plan.push(Command::CreateImageAvailable { slot: i });
                plan.push(Command::CreateRenderFinished { slot: i });
                assert(plan@ =~= create_slots(have as nat, i as nat) + create_slot(i as nat));
                i += 1;
            }
        } else {
            let mut i: usize = frames_in_flight;
            while i < have
                invariant
                    frames_in_flight <= i <= have,
                    plan@ == destroy_slots(frames_in_flight as nat, i as nat),
                decreases have - i,
            {
                plan.push(Command::DestroyFence { slot: i });
                plan.push(Command::DestroyImageAvailable { slot: i });
                plan.push(Command::DestroyRenderFinished { slot: i });
                assert(plan@ =~= destroy_slots(frames_in_flight as nat, i as nat) + destroy_slot(
                    i as nat,
                ));
                i += 1;
            }
            self.fences.truncate(frames_in_flight);
        }
        self.current_frame = (self.current_frame + 1) % frames_in_flight;
        assert(self@.fences =~= before.resized(frames_in_flight as nat).fences);
        plan
    }

    /// Gives up every slot. Returns the commands that destroy the objects:
    /// the fences, then the image-available semaphores, then the
    /// render-finished semaphores.
    pub fn destroy(&mut self) -> (plan: Vec<Command>)
        ensures
            final(self)@ == SyncView::destroyed(),
            plan@ == old(self)@.destroy_plan(),
    {
        let count = self.fences.len();
        let mut plan: Vec<Command> = Vec::new();
        let mut i: usize = 0;
        while i < count
            invariant
                i <= count,
                plan@ == destroy_fences(i as nat),
            decreases count - i,
        {
            plan.push(Command::DestroyFence { slot: i });
            assert(plan@ =~= destroy_fences((i + 1) as nat));
            i += 1;
        }
        i = 0;
        while i < count
            invariant
                i <= count,
                plan@ == destroy_fences(count as nat) + destroy_image_available(i as nat),
            decreases count - i,
        {
            plan.push(Command::DestroyImageAvailable { slot: i });
            assert(plan@ =~= destroy_fences(count as nat) + destroy_image_available(
                (i + 1) as nat,
            ));
            i += 1;
        }
        i = 0;
        while i < count
            invariant
                i <= count,
                plan@ == destroy_fences(count as nat) + destroy_image_available(count as nat)
                    + destroy_render_finished(i as nat),
            decreases count - i,
        {
            plan.push(Command::DestroyRenderFinished { slot: i });
            assert(plan@ =~= destroy_fences(count as nat) + destroy_image_available(count as nat)
                + destroy_render_finished((i + 1) as nat));
            i += 1;
        }
        self.fences = Vec::new();
        self.current_frame = 0;
        plan
    }
}

} // verus!
