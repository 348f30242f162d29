//! Physical-device selection and queue-family negotiation.
use vstd::prelude::*;

verus! {

/// Raw `VK_QUEUE_GRAPHICS_BIT`.
pub const QUEUE_GRAPHICS: u32 = 0x1;

/// Raw `VK_PHYSICAL_DEVICE_TYPE_DISCRETE_GPU`.
pub const DEVICE_TYPE_DISCRETE_GPU: i32 = 2;

/// What selection reads of one queue family.
#[derive(Clone, Copy, Debug, PartialEq, Eq, Structural)]
pub struct QueueFamily {
    /// Raw `VkQueueFlags`.
    pub queue_flags: u32,
    /// Whether the family can present to the bound surface; `None` when the
    /// query for it failed.
    pub presentation: Option<bool>,
}

/// What selection reads of one physical device.
#[derive(Debug)]
pub struct DeviceProfile {
    /// Raw `VkPhysicalDeviceType`.
    pub device_type: i32,
    pub geometry_shader: bool,
    pub queue_families: Vec<QueueFamily>,
}

/// Why device bring-up stopped.
#[derive(Clone, Copy, Debug, PartialEq, Eq, Structural)]
pub enum DeviceError {
    /// No enumerated device satisfies the compatibility predicate.
    NoCompatibleDevice,
    /// No queue family pair for graphics and presentation was found.
    NoSuitableQueueFamilies,
}

/// The family's queues can run graphics work.
pub open spec fn supports_graphics(family: QueueFamily) -> bool {
    family.queue_flags & QUEUE_GRAPHICS == QUEUE_GRAPHICS
}

/// The device has a queue family that can run graphics work.
pub open spec fn has_graphics_family(families: Seq<QueueFamily>) -> bool {
    exists|i: int| 0 <= i < families.len() && supports_graphics(#[trigger] families[i])
}

/// The compatibility predicate: a graphics-capable queue family and the
/// geometry-shader stage, and a discrete GPU where that is demanded.
pub open spec fn compatible(device: DeviceProfile, require_discrete: bool) -> bool {
    &&& has_graphics_family(device.queue_families@)
    &&& device.geometry_shader
    &&& (require_discrete ==> device.device_type == DEVICE_TYPE_DISCRETE_GPU)
}

/// Scans the families in order, remembering the latest graphics family and
/// the latest presenting family, and stops as soon as both are known. A failed
/// presentation query ends the scan without a result.
pub open spec fn queue_scan(families: Seq<QueueFamily>, i: int, graphics: Option<u32>, present: Option<u32>) -> Option<(u32, u32)>
    decreases families.len() - i,
{
    if i < 0 || i >= families.len() {
        None
    } else {
        match families[i].presentation {
            None => None,
            Some(presents) => {
                let g = if supports_graphics(families[i]) { Some(i as u32) } else { graphics };
                let p = if presents { Some(i as u32) } else { present };
                if g.is_some() && p.is_some() {
                    Some((g.unwrap(), p.unwrap()))
                } else {
                    queue_scan(families, i + 1, g, p)
                }
            },
        }
    }
}

/// The graphics and presentation family indices chosen for a device.
pub open spec fn queue_indices_spec(families: Seq<QueueFamily>) -> Option<(u32, u32)> {
    queue_scan(families, 0, None, None)
}

/// Tells whether a device satisfies the compatibility predicate.
pub fn check_device_compatibility(device: &DeviceProfile, require_discrete: bool) -> (r: bool)
    ensures
        r == compatible(*device, require_discrete),
{
    if !device.geometry_shader {
        return false;
    }
    if require_discrete && device.device_type != DEVICE_TYPE_DISCRETE_GPU {
        return false;
    }
    let families = &device.queue_families;
    let mut i: usize = 0;
    while i < families.len()
        invariant
            i <= families@.len(),
            forall|j: int| 0 <= j < i ==> !supports_graphics(#[trigger] families@[j]),
            families@ == device.queue_families@,
            device.geometry_shader,
            require_discrete ==> device.device_type == DEVICE_TYPE_DISCRETE_GPU,
        decreases families@.len() - i,
    {
        if families[i].queue_flags & QUEUE_GRAPHICS == QUEUE_GRAPHICS {
            assert(supports_graphics(families@[i as int]));
            return true;
        }
        i = i + 1;
    }
    false
}

/// Returns the index of the first compatible device; fails with
/// `NoCompatibleDevice` when none qualifies, the empty list included.
pub fn select_physical_device(devices: &Vec<DeviceProfile>, require_discrete: bool) -> (r: Result<usize, DeviceError>)
    ensures
        r matches Ok(i) ==> i < devices@.len() && compatible(devices@[i as int], require_discrete)
            && forall|j: int| 0 <= j < i ==> !compatible(#[trigger] devices@[j], require_discrete),
        r matches Ok(i) ==> has_graphics_family(devices@[i as int].queue_families@),
        r is Err <==> forall|j: int| 0 <= j < devices@.len() ==> !compatible(#[trigger] devices@[j], require_discrete),
        r is Err ==> r == Err::<usize, DeviceError>(DeviceError::NoCompatibleDevice),
{
    let mut i: usize = 0;
    while i < devices.len()
        invariant
            i <= devices@.len(),
            forall|j: int| 0 <= j < i ==> !compatible(#[trigger] devices@[j], require_discrete),
        decreases devices@.len() - i,
    {
        if check_device_compatibility(&devices[i], require_discrete) {
            return Ok(i);
        }
        i = i + 1;
    }
    Err(DeviceError::NoCompatibleDevice)
}

/// Finds the graphics and presentation queue family indices, scanning the
/// families in order until both are known.
pub fn identify_required_queue_family_indices(families: &Vec<QueueFamily>) -> (r: Option<(u32, u32)>)
    requires
        families@.len() <= u32::MAX,
    ensures
        r == queue_indices_spec(families@),
        r matches Some((g, p)) ==> g < families@.len() && p < families@.len()
            && supports_graphics(families@[g as int])
            && families@[p as int].presentation == Some(true),
{
    let mut graphics: Option<u32> = None;
    let mut present: Option<u32> = None;
    let mut i: usize = 0;
    while i < families.len()
        invariant
            i <= families@.len() <= u32::MAX,
            !(graphics.is_some() && present.is_some()),
            queue_scan(families@, 0, None, None) == queue_scan(families@, i as int, graphics, present),
            graphics matches Some(g) ==> g < i && supports_graphics(families@[g as int]),
            present matches Some(p) ==> p < i && families@[p as int].presentation == Some(true),
        decreases families@.len() - i,
    {
        let family = families[i];
        match family.presentation {
            None => return None,
            Some(presents) => {
                if family.queue_flags & QUEUE_GRAPHICS == QUEUE_GRAPHICS {
                    graphics = Some(i as u32);
                }
                if presents {
                    present = Some(i as u32);
                }
            },
        }
        if graphics.is_some() && present.is_some() {
            return Some((graphics.unwrap(), present.unwrap()));
        }
        i = i + 1;
    }
    None
}

} // verus!
