use vstd::prelude::*;

use crate::tools;

verus! {

/// What the device-selection logic reads of one queue family: how many
/// queues it offers, whether they can run graphics work, and whether
/// the surface-support query for it succeeded.
pub struct QueueFamilySupport {
    pub queue_count: u32,
    pub supports_graphics: bool,
    pub supports_present: bool,
}

/// The queue family indices the renderer settles on.
pub struct QueueFamilyIndices {
    pub graphics_family: Option<u32>,
    pub present_family: Option<u32>,
}

/// A family that offers at least one queue able to run graphics work.
pub open spec fn graphics_candidate(families: Seq<QueueFamilySupport>, i: int) -> bool {
    families[i].queue_count > 0 && families[i].supports_graphics
}

/// A family that offers at least one queue and can present to the surface.
pub open spec fn present_candidate(families: Seq<QueueFamilySupport>, i: int) -> bool {
    families[i].queue_count > 0 && families[i].supports_present
}

pub open spec fn has_graphics_candidate(families: Seq<QueueFamilySupport>) -> bool {
    exists|i: int| 0 <= i < families.len() && graphics_candidate(families, i)
}

impl QueueFamilyIndices {
    pub fn new() -> (r: QueueFamilyIndices)
        ensures
            r.graphics_family.is_none(),
            r.present_family.is_none(),
    {
        QueueFamilyIndices {
            graphics_family: None,
            present_family: None,
        }
    }

    /// The selection is complete once a graphics-capable family is known.
    pub fn is_complete(&self) -> (r: bool)
        ensures
            r == self.graphics_family.is_some(),
    {
        self.graphics_family.is_some()
    }
}

/// Scan the queue families in order, remembering a graphics-capable
/// family and a present-capable family, and stop with the first
/// graphics-capable one.
///
/// The scan covers every family up to and including the first graphics
/// candidate, or all of them when there is none; the present family is
/// the last present candidate inside that scanned range.
pub fn find_queue_family(families: &Vec<QueueFamilySupport>) -> (r: QueueFamilyIndices)
    requires
        families@.len() <= u32::MAX,
    ensures
        (match r.graphics_family {
            Some(g) => g < families@.len() && graphics_candidate(families@, g as int)
                && (forall|j: int| 0 <= j < g ==> !graphics_candidate(families@, j)),
            None => forall|j: int| 0 <= j < families@.len()
                ==> !graphics_candidate(families@, j),
        }),
        (match r.present_family {
            Some(p) => scanned(families@, r.graphics_family, p as int)
                && present_candidate(families@, p as int)
                && (forall|j: int| scanned(families@, r.graphics_family, j) && j > p
                    ==> !present_candidate(families@, j)),
            None => forall|j: int| scanned(families@, r.graphics_family, j)
                ==> !present_candidate(families@, j),
        }),
{
    let mut result = QueueFamilyIndices::new();
    let n: usize = families.len();
    let mut index: usize = 0;
    while index < n && result.graphics_family.is_none()
        invariant
            n == families@.len(),
            families@.len() <= u32::MAX,
            index <= n,
            (match result.graphics_family {
                Some(g) => g as int == index - 1 && graphics_candidate(families@, g as int)
                    && (forall|j: int| 0 <= j < g ==> !graphics_candidate(families@, j)),
                None => forall|j: int| 0 <= j < index ==> !graphics_candidate(families@, j),
            }),
            (match result.present_family {
                Some(p) => p < index && present_candidate(families@, p as int)
                    && (forall|j: int| p < j < index ==> !present_candidate(families@, j)),
                None => forall|j: int| 0 <= j < index ==> !present_candidate(families@, j),
            }),
        decreases n - index,
    {
        let family = &families[index];
        if family.queue_count > 0 && family.supports_graphics {
            result.graphics_family = Some(index as u32);
        }
        if family.queue_count > 0 && family.supports_present {
            result.present_family = Some(index as u32);
        }
        index += 1;
    }
    result
}

/// The indices the scan examined: everything up to and including the
/// first graphics candidate, or every family when there is none.
pub open spec fn scanned(
    families: Seq<QueueFamilySupport>,
    graphics_family: Option<u32>,
    j: int,
) -> bool {
    match graphics_family {
        Some(g) => 0 <= j <= g as int,
        None => 0 <= j < families.len(),
    }
}

/// Whether every required device extension name stands among the names
/// the device reported.
pub fn check_device_extension_support(
    required_extensions: &Vec<Vec<u8>>,
    available_extensions: &Vec<Vec<u8>>,
) -> (r: bool)
    ensures
        r == tools::all_contained(required_extensions@, available_extensions@),
{
    let mut i: usize = 0;
    while i < required_extensions.len()
        invariant
            i <= required_extensions@.len(),
            forall|j: int| 0 <= j < i
                ==> tools::contains_bytes(available_extensions@, required_extensions@[j]@),
        decreases required_extensions@.len() - i,
    {
        if !tools::contains_name(available_extensions, &required_extensions[i]) {
            return false;
        }
        i += 1;
    }
    true
}

/// What the suitability test reads of one physical device.
pub struct PhysicalDeviceInfo {
    pub queue_families: Vec<QueueFamilySupport>,
    pub supports_required_extensions: bool,
    pub surface_format_count: usize,
    pub present_mode_count: usize,
}

/// A device is suitable when a graphics-capable queue family exists,
/// the required extensions are supported, and the surface offers at
/// least one format and one present mode.
pub open spec fn suitable_device(info: PhysicalDeviceInfo) -> bool {
    &&& has_graphics_candidate(info.queue_families@)
    &&& info.supports_required_extensions
    &&& info.surface_format_count > 0
    &&& info.present_mode_count > 0
}

pub fn is_physical_device_suitable(info: &PhysicalDeviceInfo) -> (r: bool)
    requires
        info.queue_families@.len() <= u32::MAX,
    ensures
        r == suitable_device(*info),
{
    let indices = find_queue_family(&info.queue_families);
    let is_queue_family_supported = indices.is_complete();
    let is_swapchain_supported = if info.supports_required_extensions {
        info.surface_format_count > 0 && info.present_mode_count > 0
    } else {
        false
    };
    is_queue_family_supported && info.supports_required_extensions && is_swapchain_supported
}

/// Pick the first suitable device, if any is suitable at all.
pub fn pick_physical_device(devices: &Vec<PhysicalDeviceInfo>) -> (r: Option<usize>)
    requires
        forall|i: int| 0 <= i < devices@.len()
            ==> #[trigger] devices@[i].queue_families@.len() <= u32::MAX,
    ensures
        (match r {
            Some(d) => d < devices@.len() && suitable_device(devices@[d as int])
                && (forall|j: int| 0 <= j < d ==> !suitable_device(devices@[j])),
            None => forall|j: int| 0 <= j < devices@.len() ==> !suitable_device(devices@[j]),
        }),
{
    let mut i: usize = 0;
    while i < devices.len()
        invariant
            i <= devices@.len(),
            forall|j: int| 0 <= j < devices@.len()
                ==> #[trigger] devices@[j].queue_families@.len() <= u32::MAX,
            forall|j: int| 0 <= j < i ==> !suitable_device(devices@[j]),
        decreases devices@.len() - i,
    {
        if is_physical_device_suitable(&devices[i]) {
            return Some(i);
        }
        i += 1;
    }
    None
}

/// The distinct queue family indices a logical device is created with:
/// the graphics family and the present family, once each.
pub fn unique_queue_families(graphics_family: u32, present_family: u32) -> (r: Vec<u32>)
    ensures
        r@.no_duplicates(),
        forall|x: u32| r@.contains(x) <==> (x == graphics_family || x == present_family),
        r@.len() == (if graphics_family == present_family { 1int } else { 2int }),
{
    let mut r: Vec<u32> = Vec::new();
    r.push(graphics_family);
    if present_family != graphics_family {
        r.push(present_family);
        proof {
            assert forall|x: u32|
                r@.contains(x) <==> (x == graphics_family || x == present_family) by {
                if x == graphics_family {
                    assert(r@[0] == x);
                    assert(r@.contains(x));
                } else if x == present_family {
                    assert(r@[1] == x);
                    assert(r@.contains(x));
                } else if r@.contains(x) {
                    let i = choose|i: int| 0 <= i < r@.len() && r@[i] == x;
                    assert(i == 0 || i == 1);
                }
            }
        }
    } else {
        proof {
            assert forall|x: u32|
                r@.contains(x) <==> (x == graphics_family || x == present_family) by {
                if x == graphics_family {
                    assert(r@[0] == x);
                    assert(r@.contains(x));
                } else if r@.contains(x) {
                    let i = choose|i: int| 0 <= i < r@.len() && r@[i] == x;
                    assert(i == 0);
                }
            }
        }
    }
    r
}

} // verus!
