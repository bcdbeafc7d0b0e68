use vstd::prelude::*;

verus! {

/// Width of the window the renderer presents into, in pixels.
pub const WINDOW_WIDTH: u32 = 800;

/// Height of the window the renderer presents into, in pixels.
pub const WINDOW_HEIGHT: u32 = 600;

/// Number of frame slots whose GPU work may be submitted but not yet
/// confirmed complete by a fence; fixed at process start and never
/// changed afterwards, in particular not by a swapchain recreation.
pub const MAX_FRAMES_IN_FLIGHT: usize = 2;

/// Names of the device extensions the renderer requires of a
/// physical device before it will select it.
pub struct DeviceExtension {
    pub names: [&'static str; 1],
}

/// Whether validation layers are enabled, and which layer names the
/// instance must support when they are.
pub struct ValidationInfo {
    pub is_enable: bool,
    pub required_validation_layers: [&'static str; 1],
}

} // verus!
