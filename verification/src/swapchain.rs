use vstd::prelude::*;

use crate::constants;
use crate::device::QueueFamilyIndices;

verus! {

/// Raw value of the BGRA 8-bit sRGB pixel format.
pub const FORMAT_B8G8R8A8_SRGB: u32 = 50;

/// Raw value of the nonlinear sRGB color space.
pub const COLOR_SPACE_SRGB_NONLINEAR: u32 = 0;

/// Raw value of the mailbox present mode.
pub const PRESENT_MODE_MAILBOX: u32 = 1;

/// Raw value of the exclusive image sharing mode.
pub const SHARING_MODE_EXCLUSIVE: u32 = 0;

/// Raw value of the concurrent image sharing mode.
pub const SHARING_MODE_CONCURRENT: u32 = 1;

/// A surface format: a pixel format paired with a color space, both by
/// their raw values.
#[derive(Clone, Copy, PartialEq, Eq, Structural)]
pub struct SurfaceFormat {
    pub format: u32,
    pub color_space: u32,
}

/// An image size in pixels.
#[derive(Clone, Copy, PartialEq, Eq, Structural)]
pub struct Extent2D {
    pub width: u32,
    pub height: u32,
}

/// What the swapchain construction reads of the surface capabilities.
#[derive(Clone, Copy)]
pub struct SurfaceCapabilities {
    pub min_image_count: u32,
    pub max_image_count: u32,
    pub current_extent: Extent2D,
    pub min_image_extent: Extent2D,
    pub max_image_extent: Extent2D,
}

/// The one format the renderer prefers: BGRA 8-bit sRGB in the
/// nonlinear sRGB color space.
pub open spec fn preferred_format(f: SurfaceFormat) -> bool {
    f.format == FORMAT_B8G8R8A8_SRGB && f.color_space == COLOR_SPACE_SRGB_NONLINEAR
}

/// Choose the preferred surface format when the surface offers it, and
/// the first offered format otherwise.
pub fn choose_swapchain_format(available_formats: &Vec<SurfaceFormat>) -> (r: SurfaceFormat)
    requires
        available_formats@.len() > 0,
    ensures
        (exists|i: int| 0 <= i < available_formats@.len()
            && preferred_format(available_formats@[i])) ==> preferred_format(r),
        (forall|i: int| 0 <= i < available_formats@.len()
            ==> !preferred_format(available_formats@[i])) ==> r == available_formats@[0],
{
    let mut i: usize = 0;
    while i < available_formats.len()
        invariant
            i <= available_formats@.len(),
            forall|j: int| 0 <= j < i ==> !preferred_format(available_formats@[j]),
        decreases available_formats@.len() - i,
    {
        let format = &available_formats[i];
        if format.format == FORMAT_B8G8R8A8_SRGB
            && format.color_space == COLOR_SPACE_SRGB_NONLINEAR {
            return *format;
        }
        i += 1;
    }
    available_formats[0]
}

/// Choose the mailbox present mode when the surface offers it, and the
/// first offered mode otherwise.
pub fn choose_swapchain_present_mode(present_modes: &Vec<u32>) -> (r: u32)
    requires
        present_modes@.len() > 0,
    ensures
        (exists|i: int| 0 <= i < present_modes@.len()
            && present_modes@[i] == PRESENT_MODE_MAILBOX) ==> r == PRESENT_MODE_MAILBOX,
        (forall|i: int| 0 <= i < present_modes@.len()
            ==> present_modes@[i] != PRESENT_MODE_MAILBOX) ==> r == present_modes@[0],
{
    let mut i: usize = 0;
    while i < present_modes.len()
        invariant
            i <= present_modes@.len(),
            forall|j: int| 0 <= j < i ==> present_modes@[j] != PRESENT_MODE_MAILBOX,
        decreases present_modes@.len() - i,
    {
        if present_modes[i] == PRESENT_MODE_MAILBOX {
            return PRESENT_MODE_MAILBOX;
        }
        i += 1;
    }
    present_modes[0]
}

/// A value held inside a closed range.
pub open spec fn clamp_spec(x: u32, lo: u32, hi: u32) -> u32 {
    if x < lo {
        lo
    } else if x > hi {
        hi
    } else {
        x
    }
}

/// Relies on num::clamp: the result is the lower bound when the input
/// lies below it, the upper bound when the input lies above it, and the
/// input itself otherwise; it panics only when the bounds are inverted,
/// which the precondition rules out.
#[verifier::external_body]
fn clamp_u32(input: u32, lower: u32, upper: u32) -> (r: u32)
    requires
        lower <= upper,
    ensures
        r == clamp_spec(input, lower, upper),
{
    num::clamp(input, lower, upper)
}

/// The extent the swapchain is created with: the surface's current
/// extent when the surface fixes one, and otherwise the window size
/// clamped into the surface's allowed range.
pub fn choose_swapchain_extent(capabilities: &SurfaceCapabilities) -> (r: Extent2D)
    requires
        capabilities.current_extent.width == u32::MAX
            && capabilities.current_extent.height == u32::MAX ==> {
            &&& capabilities.min_image_extent.width <= capabilities.max_image_extent.width
            &&& capabilities.min_image_extent.height <= capabilities.max_image_extent.height
        },
    ensures
        capabilities.current_extent.width != u32::MAX
            || capabilities.current_extent.height != u32::MAX
            ==> r == capabilities.current_extent,
        capabilities.current_extent.width == u32::MAX
            && capabilities.current_extent.height == u32::MAX ==> {
            &&& r.width == clamp_spec(
                constants::WINDOW_WIDTH,
                capabilities.min_image_extent.width,
                capabilities.max_image_extent.width,
            )
            &&& r.height == clamp_spec(
                constants::WINDOW_HEIGHT,
                capabilities.min_image_extent.height,
                capabilities.max_image_extent.height,
            )
        },
{
    if capabilities.current_extent.width != u32::MAX
        || capabilities.current_extent.height != u32::MAX {
        capabilities.current_extent
    } else {
        Extent2D {
            width: clamp_u32(
                constants::WINDOW_WIDTH,
                capabilities.min_image_extent.width,
                capabilities.max_image_extent.width,
            ),
            height: clamp_u32(
                constants::WINDOW_HEIGHT,
                capabilities.min_image_extent.height,
                capabilities.max_image_extent.height,
            ),
        }
    }
}

/// One image more than the surface's minimum, held to the surface's
/// maximum when the surface states one.
pub open spec fn desired_image_count_spec(capabilities: SurfaceCapabilities) -> int {
    if capabilities.max_image_count > 0
        && capabilities.min_image_count + 1 > capabilities.max_image_count {
        capabilities.max_image_count as int
    } else {
        capabilities.min_image_count + 1
    }
}

pub fn swapchain_image_count(capabilities: &SurfaceCapabilities) -> (count: u32)
    requires
        capabilities.min_image_count < u32::MAX,
    ensures
        count == desired_image_count_spec(*capabilities),
{
    let image_count: u32 = capabilities.min_image_count + 1;
    if capabilities.max_image_count > 0 && image_count > capabilities.max_image_count {
        capabilities.max_image_count
    } else {
        image_count
    }
}

/// How the swapchain images are shared between the graphics queue and
/// the present queue.
pub struct SharingPlan {
    pub sharing_mode: u32,
    pub queue_family_index_count: u32,
    pub queue_family_indices: Vec<u32>,
}

/// Concurrent sharing across both families when they differ, exclusive
/// ownership with no listed families when they coincide — also when
/// both are still unknown. When the families differ, both must be
/// known, since both indices go into the plan.
pub fn choose_sharing_mode(indices: &QueueFamilyIndices) -> (plan: SharingPlan)
    requires
        indices.graphics_family != indices.present_family ==> indices.graphics_family.is_some()
            && indices.present_family.is_some(),
    ensures
        indices.graphics_family != indices.present_family ==> {
            &&& plan.sharing_mode == SHARING_MODE_CONCURRENT
            &&& plan.queue_family_index_count == 2
            &&& plan.queue_family_indices@ == seq![
                indices.graphics_family.unwrap(),
                indices.present_family.unwrap(),
            ]
        },
        indices.graphics_family == indices.present_family ==> {
            &&& plan.sharing_mode == SHARING_MODE_EXCLUSIVE
            &&& plan.queue_family_index_count == 0
            &&& plan.queue_family_indices@ == Seq::<u32>::empty()
        },
{
    let families_differ = match (&indices.graphics_family, &indices.present_family) {
        (Some(g), Some(p)) => *g != *p,
        (None, None) => false,
        _ => true,
    };
    if families_differ {
        let graphics = indices.graphics_family.unwrap();
        let present = indices.present_family.unwrap();
        let mut queue_family_indices: Vec<u32> = Vec::new();
        queue_family_indices.push(graphics);
        queue_family_indices.push(present);
        proof {
            assert(queue_family_indices@ =~= seq![graphics, present]);
        }
        SharingPlan {
            sharing_mode: SHARING_MODE_CONCURRENT,
            queue_family_index_count: 2,
            queue_family_indices,
        }
    } else {
        let queue_family_indices: Vec<u32> = Vec::new();
        proof {
            assert(queue_family_indices@ =~= Seq::<u32>::empty());
        }
        SharingPlan {
            sharing_mode: SHARING_MODE_EXCLUSIVE,
            queue_family_index_count: 0,
            queue_family_indices,
        }
    }
}

} // verus!
