use vstd::prelude::*;

verus! {

/// `VK_MEMORY_PROPERTY_DEVICE_LOCAL_BIT`.
pub const MEMORY_DEVICE_LOCAL: u32 = 0x1;

/// `VK_MEMORY_PROPERTY_HOST_VISIBLE_BIT`.
pub const MEMORY_HOST_VISIBLE: u32 = 0x2;

/// `VK_MEMORY_PROPERTY_HOST_COHERENT_BIT`.
pub const MEMORY_HOST_COHERENT: u32 = 0x4;

/// The number of memory types a device can report, and the width of the
/// compatible-types bitmask.
pub const MAX_MEMORY_TYPES: usize = 32;

/// Every bit of `required` is set in `flags`.
pub open spec fn flags_superset(flags: u32, required: u32) -> bool {
    flags & required == required
}

/// Bit `i` of the compatible-types mask is set.
pub open spec fn type_allowed(type_filter: u32, i: int) -> bool {
    0 <= i < 32 && type_filter & (1u32 << (i as u32)) != 0
}

/// Memory type `i` of `types` may back a resource with the given requirements.
pub open spec fn memory_type_suitable(type_filter: u32, required: u32, types: Seq<u32>, i: int) -> bool {
    0 <= i < types.len() && type_allowed(type_filter, i) && flags_superset(types[i], required)
}

/// Tests whether every bit of `required` is set in `flags`.
pub fn flags_contain(flags: u32, required: u32) -> (r: bool)
    ensures
        r == flags_superset(flags, required),
{
    flags & required == required
}

/// Picks the first memory type whose bit is set in `type_filter` and whose
/// property flags hold all of `required_properties`. `memory_types` holds the
/// property flags of each memory type the device reports, in order.
pub fn find_memory_type(type_filter: u32, required_properties: u32, memory_types: &Vec<u32>) -> (r: Option<u32>)
    ensures
        match r {
            Some(i) => {
                &&& memory_type_suitable(type_filter, required_properties, memory_types@, i as int)
                &&& forall|j: int| 0 <= j < i ==> !memory_type_suitable(type_filter, required_properties, memory_types@, j)
            },
            None => forall|j: int| 0 <= j < memory_types@.len() ==> !memory_type_suitable(type_filter, required_properties, memory_types@, j),
        },
{
    let mut i: usize = 0;
    while i < memory_types.len() && i < MAX_MEMORY_TYPES
        invariant
            i <= memory_types@.len(),
            i <= 32,
            forall|j: int| 0 <= j < i ==> !memory_type_suitable(type_filter, required_properties, memory_types@, j),
        decreases memory_types@.len() - i,
    {
        if type_filter & (1u32 << (i as u32)) != 0 && flags_contain(memory_types[i], required_properties) {
            return Some(i as u32);
        }
        i += 1;
    }
    None
}

} // verus!
