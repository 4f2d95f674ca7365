use vstd::prelude::*;
use crate::queue_family::{QueueFamilyProps, find_queue_family, has_graphics_before, has_present_before};

verus! {

/// The device extensions the renderer needs.
#[derive(Clone, Debug)]
pub struct DeviceExtensions {
    pub names: Vec<String>,
}

/// What is known of one adapter when deciding whether to use it.
#[derive(Clone, Debug)]
pub struct DeviceCandidate {
    pub queue_families: Vec<QueueFamilyProps>,
    /// The names of the device extensions the adapter offers.
    pub extension_names: Vec<String>,
    /// How many surface formats and present modes the adapter offers for the window's surface.
    pub surface_format_count: usize,
    pub present_mode_count: usize,
    pub sampler_anisotropy: bool,
}

impl DeviceExtensions {
    /// Only the swapchain extension, which presenting needs.
    pub fn swap_chain_only() -> (r: DeviceExtensions)
        ensures
            r.names@.len() == 1,
            r.names@[0]@ == "VK_KHR_swapchain"@,
    {
        let name = "VK_KHR_swapchain".to_owned();
        DeviceExtensions { names: vec![name] }
    }
}

/// Every required name is among the available ones.
pub open spec fn extensions_supported(available: Seq<String>, required: Seq<String>) -> bool {
    forall|i: int| 0 <= i < required.len() ==> name_available(available, (#[trigger] required[i])@)
}

/// Some available name equals `name`.
pub open spec fn name_available(available: Seq<String>, name: Seq<char>) -> bool {
    exists|j: int| 0 <= j < available.len() && (#[trigger] available[j])@ == name
}

/// The adapter has a graphics family and a present family, offers every
/// required extension, offers at least one surface format and present mode,
/// and supports anisotropic sampling.
pub open spec fn device_suitable(c: DeviceCandidate, required: Seq<String>) -> bool {
    &&& has_graphics_before(c.queue_families@, c.queue_families@.len() as int)
    &&& has_present_before(c.queue_families@, c.queue_families@.len() as int)
    &&& extensions_supported(c.extension_names@, required)
    &&& c.surface_format_count > 0
    &&& c.present_mode_count > 0
    &&& c.sampler_anisotropy
}

fn contains_name(available: &Vec<String>, name: &String) -> (r: bool)
    ensures
        r == name_available(available@, name@),
{
    let mut j: usize = 0;
    while j < available.len()
        invariant
            j <= available@.len(),
            forall|k: int| 0 <= k < j ==> (#[trigger] available@[k])@ != name@,
        decreases available@.len() - j,
    {
        if available[j] == *name {
            return true;
        }
        j += 1;
    }
    false
}

/// Tests whether the adapter offers every required device extension.
pub fn check_device_extension_support(available_extension_names: &Vec<String>, device_extensions: &DeviceExtensions) -> (r: bool)
    ensures
        r == extensions_supported(available_extension_names@, device_extensions.names@),
{
    let mut i: usize = 0;
    while i < device_extensions.names.len()
        invariant
            i <= device_extensions.names@.len(),
            forall|k: int| 0 <= k < i ==> name_available(available_extension_names@, (#[trigger] device_extensions.names@[k])@),
        decreases device_extensions.names@.len() - i,
    {
        if !contains_name(available_extension_names, &device_extensions.names[i]) {
            return false;
        }
        i += 1;
    }
    true
}

/// Tests whether the renderer can run on the adapter.
pub fn is_physical_device_suitable(candidate: &DeviceCandidate, required_device_extensions: &DeviceExtensions) -> (r: bool)
    requires
        candidate.queue_families@.len() <= u32::MAX,
    ensures
        r == device_suitable(*candidate, required_device_extensions.names@),
{
    let indices = find_queue_family(&candidate.queue_families);
    let is_queue_family_supported = indices.is_complete();
    let is_device_extension_supported = check_device_extension_support(&candidate.extension_names, required_device_extensions);
    let is_swapchain_supported = is_device_extension_supported && candidate.surface_format_count > 0 && candidate.present_mode_count > 0;
    is_queue_family_supported && is_device_extension_supported && is_swapchain_supported && candidate.sampler_anisotropy
}

/// Picks the first suitable adapter; there is no ranking among several.
pub fn pick_physical_device(candidates: &Vec<DeviceCandidate>, required_device_extensions: &DeviceExtensions) -> (r: Option<usize>)
    requires
        forall|i: int| 0 <= i < candidates@.len() ==> (#[trigger] candidates@[i]).queue_families@.len() <= u32::MAX,
    ensures
        match r {
            Some(i) => {
                &&& i < candidates@.len()
                &&& device_suitable(candidates@[i as int], required_device_extensions.names@)
                &&& forall|j: int| 0 <= j < i ==> !device_suitable(#[trigger] candidates@[j], required_device_extensions.names@)
            },
            None => forall|j: int| 0 <= j < candidates@.len() ==> !device_suitable(#[trigger] candidates@[j], required_device_extensions.names@),
        },
{
    let mut i: usize = 0;
    while i < candidates.len()
        invariant
            i <= candidates@.len(),
            forall|j: int| 0 <= j < i ==> !device_suitable(#[trigger] candidates@[j], required_device_extensions.names@),
            forall|j: int| 0 <= j < candidates@.len() ==> (#[trigger] candidates@[j]).queue_families@.len() <= u32::MAX,
        decreases candidates@.len() - i,
    {
        assert(candidates@[i as int].queue_families@.len() <= u32::MAX);
        if is_physical_device_suitable(&candidates[i], required_device_extensions) {
            return Some(i);
        }
        i += 1;
    }
    None
}

} // verus!
