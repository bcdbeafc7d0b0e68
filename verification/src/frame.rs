use vstd::prelude::*;

use crate::constants;

verus! {

/// What acquiring the next swapchain image reported: an image index,
/// or a swapchain that no longer matches the surface.
pub enum AcquireOutcome {
    Success(u32),
    OutOfDate,
}

/// What the frame loop does with an acquire outcome: record into the
/// acquired image, or skip this frame and rebuild the swapchain first.
pub enum FrameAction {
    Render(u32),
    SkipAndRecreate,
}

/// The per-frame bookkeeping the draw loop carries between frames.
pub struct FrameState {
    pub current_frame: usize,
}

impl FrameState {
    /// The frame slot always stays inside the fixed set of slots.
    pub open spec fn well_formed(self) -> bool {
        self.current_frame < constants::MAX_FRAMES_IN_FLIGHT
    }

    pub fn new() -> (s: FrameState)
        ensures
            s.well_formed(),
            s.current_frame == 0,
    {
        FrameState { current_frame: 0 }
    }

    /// Decide what to do with an acquired image: render into it, or
    /// skip the frame and rebuild a stale swapchain.
    pub fn acquire_action(outcome: &AcquireOutcome) -> (action: FrameAction)
        ensures
            (match *outcome {
                AcquireOutcome::Success(image_index) =>
                    action == FrameAction::Render(image_index),
                AcquireOutcome::OutOfDate => action == FrameAction::SkipAndRecreate,
            }),
    {
        match outcome {
            AcquireOutcome::Success(image_index) => FrameAction::Render(*image_index),
            AcquireOutcome::OutOfDate => FrameAction::SkipAndRecreate,
        }
    }

    /// Move on to the next frame slot, wrapping around after the last one.
    pub fn advance_frame(&mut self)
        requires
            old(self).well_formed(),
        ensures
            final(self).well_formed(),
            final(self).current_frame
                == (old(self).current_frame + 1) % (constants::MAX_FRAMES_IN_FLIGHT as int),
    {
        self.current_frame = (self.current_frame + 1) % constants::MAX_FRAMES_IN_FLIGHT;
    }
}

/// One flag per frame slot, saying whether work submitted through that
/// slot is still outstanding. A fence per slot gates reuse: a slot may
/// only be submitted through again once its fence wait has cleared it.
pub struct FrameSlots {
    pub busy: Vec<bool>,
}

impl FrameSlots {
    /// There is exactly one flag for each of the fixed frame slots.
    pub open spec fn well_formed(self) -> bool {
        self.busy@.len() == constants::MAX_FRAMES_IN_FLIGHT
    }

    pub fn new() -> (s: FrameSlots)
        ensures
            s.well_formed(),
            forall|i: int| 0 <= i < s.busy@.len() ==> !s.busy@[i],
    {
        let mut busy: Vec<bool> = Vec::new();
        let mut i: usize = 0;
        while i < constants::MAX_FRAMES_IN_FLIGHT
            invariant
                i <= constants::MAX_FRAMES_IN_FLIGHT,
                busy@.len() == i,
                forall|j: int| 0 <= j < i ==> !busy@[j],
            decreases constants::MAX_FRAMES_IN_FLIGHT - i,
        {
            busy.push(false);
            i += 1;
        }
        FrameSlots { busy }
    }

    /// The slot's fence wait returned: whatever was outstanding in this
    /// slot is complete, and the slot is free for reuse.
    pub fn fence_cleared(&mut self, slot: usize)
        requires
            old(self).well_formed(),
            slot < constants::MAX_FRAMES_IN_FLIGHT,
        ensures
            final(self).well_formed(),
            !final(self).busy@[slot as int],
            forall|i: int| 0 <= i < final(self).busy@.len() && i != slot
                ==> final(self).busy@[i] == old(self).busy@[i],
    {
        self.busy.set(slot, false);
    }

    /// Submit work through a slot. The slot must be free, so at most
    /// one submission is ever outstanding per frame slot.
    pub fn submit(&mut self, slot: usize)
        requires
            old(self).well_formed(),
            slot < constants::MAX_FRAMES_IN_FLIGHT,
            !old(self).busy@[slot as int],
        ensures
            final(self).well_formed(),
            final(self).busy@[slot as int],
            forall|i: int| 0 <= i < final(self).busy@.len() && i != slot
                ==> final(self).busy@[i] == old(self).busy@[i],
    {
        self.busy.set(slot, true);
    }
}

} // verus!
