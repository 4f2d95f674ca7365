use vstd::prelude::*;

verus! {

/// `VK_QUEUE_GRAPHICS_BIT`.
pub const QUEUE_GRAPHICS: u32 = 0x1;

/// What the device reports of one queue family, with whether it can present
/// to the window's surface.
#[derive(Clone, Copy, PartialEq, Eq, Structural, Debug)]
pub struct QueueFamilyProps {
    pub queue_count: u32,
    pub queue_flags: u32,
    pub present_support: bool,
}

/// The queue families chosen for drawing and for presenting.
#[derive(Clone, Copy, PartialEq, Eq, Structural, Debug)]
pub struct QueueFamilyIndices {
    pub graphics_family: Option<u32>,
    pub present_family: Option<u32>,
}

pub open spec fn is_graphics_family(f: QueueFamilyProps) -> bool {
    f.queue_count > 0 && f.queue_flags & QUEUE_GRAPHICS == QUEUE_GRAPHICS
}

pub open spec fn is_present_family(f: QueueFamilyProps) -> bool {
    f.queue_count > 0 && f.present_support
}

pub open spec fn has_graphics_before(s: Seq<QueueFamilyProps>, end: int) -> bool {
    exists|i: int| 0 <= i < end && is_graphics_family(#[trigger] s[i])
}

pub open spec fn has_present_before(s: Seq<QueueFamilyProps>, end: int) -> bool {
    exists|i: int| 0 <= i < end && is_present_family(#[trigger] s[i])
}

/// The scan over the families stops after `end` of them: right after the
/// first prefix that holds both a graphics and a present family, or at the end.
pub open spec fn scan_stops_at(s: Seq<QueueFamilyProps>, end: int) -> bool {
    &&& 0 <= end <= s.len()
    &&& (end == s.len() || (has_graphics_before(s, end) && has_present_before(s, end)))
    &&& forall|e: int| 0 <= e < end ==> !(has_graphics_before(s, e) && has_present_before(s, e))
}

/// `idx` is the last index below `end` whose family is a graphics family, or
/// `None` when there is none.
pub open spec fn last_graphics_before(s: Seq<QueueFamilyProps>, end: int, idx: Option<u32>) -> bool {
    match idx {
        Some(g) => {
            &&& g < end
            &&& is_graphics_family(s[g as int])
            &&& forall|j: int| g < j < end ==> !is_graphics_family(#[trigger] s[j])
        },
        None => !has_graphics_before(s, end),
    }
}

/// `idx` is the last index below `end` whose family can present, or `None`
/// when there is none.
pub open spec fn last_present_before(s: Seq<QueueFamilyProps>, end: int, idx: Option<u32>) -> bool {
    match idx {
        Some(p) => {
            &&& p < end
            &&& is_present_family(s[p as int])
            &&& forall|j: int| p < j < end ==> !is_present_family(#[trigger] s[j])
        },
        None => !has_present_before(s, end),
    }
}

impl QueueFamilyIndices {
    /// No family chosen yet.
    pub fn new() -> (r: QueueFamilyIndices)
        ensures
            r.graphics_family is None,
            r.present_family is None,
    {
        QueueFamilyIndices { graphics_family: None, present_family: None }
    }

    pub open spec fn complete(&self) -> bool {
        self.graphics_family is Some && self.present_family is Some
    }

    /// Both a graphics and a present family are chosen.
    pub fn is_complete(&self) -> (r: bool)
        ensures
            r == self.complete(),
    {
        self.graphics_family.is_some() && self.present_family.is_some()
    }
}

/// Scans the queue families in order, taking each graphics family and each
/// present family it meets, and stops as soon as both kinds are found.
pub fn find_queue_family(queue_families: &Vec<QueueFamilyProps>) -> (r: QueueFamilyIndices)
    requires
        queue_families@.len() <= u32::MAX,
    ensures
        exists|end: int|
            {
                &&& scan_stops_at(queue_families@, end)
                &&& last_graphics_before(queue_families@, end, r.graphics_family)
                &&& last_present_before(queue_families@, end, r.present_family)
            },
        r.complete() <==> (has_graphics_before(queue_families@, queue_families@.len() as int)
            && has_present_before(queue_families@, queue_families@.len() as int)),
{
    let ghost s = queue_families@;
    let mut indices = QueueFamilyIndices::new();
    let mut index: usize = 0;
    while index < queue_families.len()
        invariant
            s == queue_families@,
            index <= s.len() <= u32::MAX,
            last_graphics_before(s, index as int, indices.graphics_family),
            last_present_before(s, index as int, indices.present_family),
            forall|e: int| 0 <= e <= index ==> !(has_graphics_before(s, e) && has_present_before(s, e)),
        decreases s.len() - index,
    {
        let family = queue_families[index];
        if family.queue_count > 0 && family.queue_flags & QUEUE_GRAPHICS == QUEUE_GRAPHICS {
            indices.graphics_family = Some(index as u32);
        }
        if family.queue_count > 0 && family.present_support {
            indices.present_family = Some(index as u32);
        }
        proof {
            assert(last_graphics_before(s, index + 1, indices.graphics_family)) by {
                if !is_graphics_family(s[index as int]) {
                    if indices.graphics_family is None {
                        assert forall|i: int| 0 <= i < index + 1 implies !is_graphics_family(#[trigger] s[i]) by {
                            if i < index {
                                assert(!has_graphics_before(s, index as int));
                            }
                        }
                    }
                }
            }
            assert(last_present_before(s, index + 1, indices.present_family)) by {
                if !is_present_family(s[index as int]) {
                    if indices.present_family is None {
                        assert forall|i: int| 0 <= i < index + 1 implies !is_present_family(#[trigger] s[i]) by {
                            if i < index {
                                assert(!has_present_before(s, index as int));
                            }
                        }
                    }
                }
            }
        }
        if indices.is_complete() {
            proof {
                assert(has_graphics_before(s, index + 1)) by {
                    let g = indices.graphics_family->0;
                    assert(is_graphics_family(s[g as int]));
                }
                assert(has_present_before(s, index + 1)) by {
                    let p = indices.present_family->0;
                    assert(is_present_family(s[p as int]));
                }
                assert(scan_stops_at(s, index + 1));
                assert(has_graphics_before(s, s.len() as int)) by {
                    let g = indices.graphics_family->0;
                    assert(is_graphics_family(s[g as int]));
                }
                assert(has_present_before(s, s.len() as int)) by {
                    let p = indices.present_family->0;
                    assert(is_present_family(s[p as int]));
                }
            }
            return indices;
        }
        proof {
            assert(!(has_graphics_before(s, index + 1) && has_present_before(s, index + 1))) by {
                if has_graphics_before(s, index + 1) {
                    assert(indices.graphics_family is Some);
                }
                if has_present_before(s, index + 1) {
                    assert(indices.present_family is Some);
                }
            }
        }
        index += 1;
    }
    proof {
        assert(scan_stops_at(s, s.len() as int));
        if indices.complete() {
            let g = indices.graphics_family->0;
            let p = indices.present_family->0;
            assert(is_graphics_family(s[g as int]));
            assert(is_present_family(s[p as int]));
        }
    }
    indices
}

/// The queue families to create queues on: one when a single family both
/// draws and presents, else the graphics family and then the present family.
pub fn unique_queue_families(indices: &QueueFamilyIndices) -> (r: Vec<u32>)
    requires
        indices.complete(),
    ensures
        indices.graphics_family == indices.present_family ==> r@ == seq![indices.graphics_family->0],
        indices.graphics_family != indices.present_family ==> r@ == seq![indices.graphics_family->0, indices.present_family->0],
{
    let g = indices.graphics_family.unwrap();
    let p = indices.present_family.unwrap();
    if g == p {
        vec![g]
    } else {
        vec![g, p]
    }
}

} // verus!
