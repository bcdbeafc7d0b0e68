use vstd::prelude::*;

use crate::constants;

verus! {

/// Whether the swapchain still matches the surface it presents to.
#[derive(Clone, Copy, Debug, PartialEq, Eq, Structural)]
pub enum PresentationState {
    Presenting,
    Stale,
}

/// What the driver reported of the swapchain during a frame, at image
/// acquisition or at presentation.
pub enum SwapchainStatus {
    UpToDate,
    Suboptimal,
    OutOfDate,
}

/// A status that leaves the swapchain no longer matching the surface:
/// suboptimal or out of date, and nothing else.
pub open spec fn stale_status(status: SwapchainStatus) -> bool {
    match status {
        SwapchainStatus::UpToDate => false,
        SwapchainStatus::Suboptimal => true,
        SwapchainStatus::OutOfDate => true,
    }
}

impl PresentationState {
    /// A swapchain becomes stale exactly when acquisition or
    /// presentation reports it suboptimal or out of date, and stays
    /// stale until it is rebuilt.
    pub fn observe(&self, status: &SwapchainStatus) -> (next: PresentationState)
        ensures
            (next == PresentationState::Stale)
                <==> (*self == PresentationState::Stale || stale_status(*status)),
    {
        match status {
            SwapchainStatus::UpToDate => *self,
            SwapchainStatus::Suboptimal => PresentationState::Stale,
            SwapchainStatus::OutOfDate => PresentationState::Stale,
        }
    }

    /// The recovery action ran: the swapchain and everything sized to
    /// it were rebuilt against the current surface, so presentation is
    /// healthy again.
    pub fn recovered(&self) -> (next: PresentationState)
        ensures
            next == PresentationState::Presenting,
    {
        PresentationState::Presenting
    }
}

/// A count of each resource the renderer owns, grouped by lifetime:
/// the synchronization primitives made once at startup, and the
/// resources sized to the swapchain and rebuilt with it.
pub struct RendererResources {
    pub semaphore_count: usize,
    pub fence_count: usize,
    pub image_view_count: usize,
    pub framebuffer_count: usize,
    pub command_buffer_count: usize,
}

impl RendererResources {
    /// Two semaphores and one fence per frame slot, fixed at startup.
    pub open spec fn sync_counts_fixed(self) -> bool {
        &&& self.semaphore_count == 2 * constants::MAX_FRAMES_IN_FLIGHT
        &&& self.fence_count == constants::MAX_FRAMES_IN_FLIGHT
    }

    /// One image view, framebuffer and command buffer per swapchain image.
    pub open spec fn swapchain_sized(self, image_count: int) -> bool {
        &&& self.image_view_count == image_count
        &&& self.framebuffer_count == image_count
        &&& self.command_buffer_count == image_count
    }

    /// The resource counts after startup, with `image_count` swapchain
    /// images.
    pub fn initial(image_count: usize) -> (r: RendererResources)
        ensures
            r.sync_counts_fixed(),
            r.swapchain_sized(image_count as int),
    {
        RendererResources {
            semaphore_count: 2 * constants::MAX_FRAMES_IN_FLIGHT,
            fence_count: constants::MAX_FRAMES_IN_FLIGHT,
            image_view_count: image_count,
            framebuffer_count: image_count,
            command_buffer_count: image_count,
        }
    }

    /// Rebuild the swapchain-sized resources against a surface that now
    /// offers `new_image_count` images: the synchronization primitives
    /// are left untouched, so their counts never depend on how often
    /// the swapchain was recreated.
    pub fn recreate_swapchain(&mut self, new_image_count: usize)
        ensures
            final(self).semaphore_count == old(self).semaphore_count,
            final(self).fence_count == old(self).fence_count,
            final(self).swapchain_sized(new_image_count as int),
    {
        self.image_view_count = new_image_count;
        self.framebuffer_count = new_image_count;
        self.command_buffer_count = new_image_count;
    }
}

} // verus!
