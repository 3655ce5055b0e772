use vstd::prelude::*;

verus! {

/// Bit of a queue family's flags that marks graphics support (`VK_QUEUE_GRAPHICS_BIT`).
pub const QUEUE_GRAPHICS_BIT: u32 = 1;

/// What a physical device reports about one of its queue families: its raw
/// capability flags, and whether it can present to the window's surface.
#[derive(Clone, Copy, Debug, PartialEq, Eq, Structural)]
pub struct QueueFamilySupport {
    pub queue_flags: u32,
    pub present_support: bool,
}

/// The queue families found on a physical device: one that can run graphics
/// work and one that can present to the window's surface.
#[derive(Clone, Copy, Debug, Default, PartialEq, Eq, Structural)]
pub struct QueueFamilyIndices {
    pub graphics_family: Option<u32>,
    pub present_family: Option<u32>,
}

/// A physical device fit for rendering, by its position in the enumeration,
/// with the queue families found on it.
#[derive(Clone, Copy, Debug, PartialEq, Eq, Structural)]
pub struct DeviceChoice {
    pub physical_device_index: usize,
    pub indices: QueueFamilyIndices,
}

impl QueueFamilyIndices {
    pub open spec fn complete(self) -> bool {
        self.graphics_family.is_some() && self.present_family.is_some()
    }

    /// Both a graphics family and a present family have been found.
    pub fn is_complete(&self) -> (r: bool)
        ensures
            r == self.complete(),
    {
        self.graphics_family.is_some() && self.present_family.is_some()
    }
}

pub open spec fn has_graphics(flags: u32) -> bool {
    flags & QUEUE_GRAPHICS_BIT != 0
}

pub open spec fn empty_indices() -> QueueFamilyIndices {
    QueueFamilyIndices { graphics_family: None, present_family: None }
}

/// The indices after looking at family `i`: a capability it has records `i`.
pub open spec fn record_family(
    acc: QueueFamilyIndices,
    i: int,
    family: QueueFamilySupport,
) -> QueueFamilyIndices {
    QueueFamilyIndices {
        graphics_family: if has_graphics(family.queue_flags) {
            Some(i as u32)
        } else {
            acc.graphics_family
        },
        present_family: if family.present_support {
            Some(i as u32)
        } else {
            acc.present_family
        },
    }
}

/// Looks at the families from `i` on, in order, and stops at the first one
/// after which both a graphics and a present family are known.
pub open spec fn scan_families(
    families: Seq<QueueFamilySupport>,
    i: int,
    acc: QueueFamilyIndices,
) -> QueueFamilyIndices
    decreases families.len() - i,
{
    if i < 0 || i >= families.len() {
        acc
    } else {
        let next = record_family(acc, i, families[i]);
        if next.complete() {
            next
        } else {
            scan_families(families, i + 1, next)
        }
    }
}

/// The queue families that a scan of all of a device's families finds.
pub open spec fn found_families(families: Seq<QueueFamilySupport>) -> QueueFamilyIndices {
    scan_families(families, 0, empty_indices())
}

/// A device can be used when the scan finds both kinds of family on it.
pub open spec fn suitable(families: Seq<QueueFamilySupport>) -> bool {
    found_families(families).complete()
}

/// Whether a queue family's flags include graphics.
pub fn supports_graphics(queue_flags: u32) -> (r: bool)
    ensures
        r == has_graphics(queue_flags),
{
    queue_flags & QUEUE_GRAPHICS_BIT != 0
}

/// Finds a graphics family and a present family among a device's queue
/// families, scanning in order and stopping once both are known.
pub fn find_queue_families(families: &Vec<QueueFamilySupport>) -> (r: QueueFamilyIndices)
    requires
        families@.len() <= u32::MAX,
    ensures
        r == found_families(families@),
{
    let mut indices = QueueFamilyIndices { graphics_family: None, present_family: None };
    let mut i: usize = 0;
    while i < families.len()
        invariant
            0 <= i <= families@.len(),
            families@.len() <= u32::MAX,
            !indices.complete(),
            scan_families(families@, i as int, indices) == found_families(families@),
        decreases families@.len() - i,
    {
        let family = families[i];
        if supports_graphics(family.queue_flags) {
            indices.graphics_family = Some(i as u32);
        }
        if family.present_support {
            indices.present_family = Some(i as u32);
        }
        if indices.is_complete() {
            return indices;
        }
        i += 1;
    }
    indices
}

/// Whether a device has both a graphics and a present family.
pub fn is_device_suitable(families: &Vec<QueueFamilySupport>) -> (r: bool)
    requires
        families@.len() <= u32::MAX,
    ensures
        r == suitable(families@),
{
    find_queue_families(families).is_complete()
}

/// Chooses the first device, in enumeration order, that has both a graphics
/// and a present family; `None` when no device does.
pub fn pick_physical_device(devices: &Vec<Vec<QueueFamilySupport>>) -> (r: Option<DeviceChoice>)
    requires
        forall|d: int| 0 <= d < devices@.len() ==> #[trigger] devices@[d]@.len() <= u32::MAX,
    ensures
        r matches Some(c) ==> {
            &&& c.physical_device_index < devices@.len()
            &&& suitable(devices@[c.physical_device_index as int]@)
            &&& c.indices == found_families(devices@[c.physical_device_index as int]@)
            &&& forall|d: int|
                0 <= d < c.physical_device_index ==> !suitable(#[trigger] devices@[d]@)
        },
        r is None ==> forall|d: int| 0 <= d < devices@.len() ==> !suitable(#[trigger] devices@[d]@),
{
    let mut d: usize = 0;
    while d < devices.len()
        invariant
            0 <= d <= devices@.len(),
            forall|k: int| 0 <= k < devices@.len() ==> #[trigger] devices@[k]@.len() <= u32::MAX,
            forall|k: int| 0 <= k < d ==> !suitable(#[trigger] devices@[k]@),
        decreases devices@.len() - d,
    {
        let indices = find_queue_families(&devices[d]);
        if indices.is_complete() {
            return Some(DeviceChoice { physical_device_index: d, indices });
        }
        d += 1;
    }
    None
}

/// The distinct queue families a logical device needs a queue from: the
/// graphics family, and the present family when it is a different one.
pub fn unique_queue_families(indices: &QueueFamilyIndices) -> (r: Vec<u32>)
    requires
        indices.complete(),
    ensures
        indices.graphics_family == indices.present_family ==> r@ == seq![
            indices.graphics_family.unwrap(),
        ],
        indices.graphics_family != indices.present_family ==> r@ == seq![
            indices.graphics_family.unwrap(),
            indices.present_family.unwrap(),
        ],
{
    let graphics = indices.graphics_family.unwrap();
    let present = indices.present_family.unwrap();
    let mut r: Vec<u32> = Vec::new();
    r.push(graphics);
    if present != graphics {
        r.push(present);
    }
    r
}

proof fn lemma_scan_finds_capable(families: Seq<QueueFamilySupport>, i: int, acc: QueueFamilyIndices)
    requires
        0 <= i,
        families.len() <= u32::MAX,
        acc.graphics_family matches Some(g) ==> g < families.len() && has_graphics(
            families[g as int].queue_flags,
        ),
        acc.present_family matches Some(p) ==> p < families.len()
            && families[p as int].present_support,
    ensures
        ({
            let r = scan_families(families, i, acc);
            &&& r.graphics_family matches Some(g) ==> g < families.len() && has_graphics(
                families[g as int].queue_flags,
            )
            &&& r.present_family matches Some(p) ==> p < families.len()
                && families[p as int].present_support
        }),
    decreases families.len() - i,
{
    if i < families.len() {
        let next = record_family(acc, i, families[i]);
        if !next.complete() {
            lemma_scan_finds_capable(families, i + 1, next);
        }
    }
}

proof fn lemma_scan_complete_iff(families: Seq<QueueFamilySupport>, i: int, acc: QueueFamilyIndices)
    requires
        0 <= i <= families.len(),
        !acc.complete(),
        acc.graphics_family is Some <==> exists|j: int|
            0 <= j < i && has_graphics(#[trigger] families[j].queue_flags),
        acc.present_family is Some <==> exists|j: int|
            0 <= j < i && #[trigger] families[j].present_support,
    ensures
        scan_families(families, i, acc).complete() <==> (exists|j: int|
            0 <= j < families.len() && has_graphics(#[trigger] families[j].queue_flags)) && (exists|
            j: int,
        |
            0 <= j < families.len() && #[trigger] families[j].present_support),
    decreases families.len() - i,
{
    if i < families.len() {
        let next = record_family(acc, i, families[i]);
        if has_graphics(families[i].queue_flags) {
            assert(exists|j: int| 0 <= j < i + 1 && has_graphics(#[trigger] families[j].queue_flags));
        }
        if families[i].present_support {
            assert(exists|j: int| 0 <= j < i + 1 && #[trigger] families[j].present_support);
        }
        if !next.complete() {
            assert(next.graphics_family is Some <==> exists|j: int|
                0 <= j < i + 1 && has_graphics(#[trigger] families[j].queue_flags));
            assert(next.present_family is Some <==> exists|j: int|
                0 <= j < i + 1 && #[trigger] families[j].present_support);
            lemma_scan_complete_iff(families, i + 1, next);
        }
    }
}

proof fn lemma_scan_prefix(
    families: Seq<QueueFamilySupport>,
    more: Seq<QueueFamilySupport>,
    i: int,
    acc: QueueFamilyIndices,
)
    requires
        0 <= i,
        !acc.complete(),
        scan_families(families, i, acc).complete(),
    ensures
        scan_families(families + more, i, acc) == scan_families(families, i, acc),
    decreases families.len() - i,
{
    if i < families.len() {
        assert((families + more)[i] == families[i]);
        let next = record_family(acc, i, families[i]);
        if !next.complete() {
            lemma_scan_prefix(families, more, i + 1, next);
        }
    }
}

/// Queue-family discovery records only families that have the capability it
/// records them for, and finds both kinds exactly when the device has both.
pub proof fn lemma_found_families_sound(families: Seq<QueueFamilySupport>)
    requires
        families.len() <= u32::MAX,
    ensures
        found_families(families).graphics_family matches Some(g) ==> g < families.len()
            && has_graphics(families[g as int].queue_flags),
        found_families(families).present_family matches Some(p) ==> p < families.len()
            && families[p as int].present_support,
        suitable(families) <==> (exists|j: int|
            0 <= j < families.len() && has_graphics(#[trigger] families[j].queue_flags)) && (exists|
            j: int,
        |
            0 <= j < families.len() && #[trigger] families[j].present_support),
{
    lemma_scan_finds_capable(families, 0, empty_indices());
    lemma_scan_complete_iff(families, 0, empty_indices());
}

/// Discovery stops once both kinds of family are known: families listed after
/// that point never change the result.
pub proof fn lemma_discovery_stops_when_complete(
    families: Seq<QueueFamilySupport>,
    more: Seq<QueueFamilySupport>,
)
    requires
        suitable(families),
    ensures
        found_families(families + more) == found_families(families),
{
    lemma_scan_prefix(families, more, 0, empty_indices());
}


/// Family `g` can run graphics work, and no family after it up to `end` can.
pub open spec fn last_graphics_through(families: Seq<QueueFamilySupport>, g: int, end: int) -> bool {
    &&& 0 <= g <= end
    &&& has_graphics(families[g].queue_flags)
    &&& forall|j: int| g < j <= end ==> !has_graphics(#[trigger] families[j].queue_flags)
}

/// Family `p` can present, and no family after it up to `end` can.
pub open spec fn last_present_through(families: Seq<QueueFamilySupport>, p: int, end: int) -> bool {
    &&& 0 <= p <= end
    &&& families[p].present_support
    &&& forall|j: int| p < j <= end ==> !#[trigger] families[j].present_support
}

/// Among the families up to `end`, one can run graphics work and one can present.
pub open spec fn both_known_through(families: Seq<QueueFamilySupport>, end: int) -> bool {
    &&& exists|j: int| 0 <= j <= end && has_graphics(#[trigger] families[j].queue_flags)
    &&& exists|j: int| 0 <= j <= end && #[trigger] families[j].present_support
}

/// The last family a scan that ended with `r` looked at: the later of the two
/// found families when both were found, else the last family of the device.
pub open spec fn scan_end(families: Seq<QueueFamilySupport>, r: QueueFamilyIndices) -> int {
    if r.complete() {
        let g = r.graphics_family.unwrap() as int;
        let p = r.present_family.unwrap() as int;
        if g < p {
            p
        } else {
            g
        }
    } else {
        families.len() - 1
    }
}

proof fn lemma_scan_finds_last(families: Seq<QueueFamilySupport>, i: int, acc: QueueFamilyIndices)
    requires
        0 <= i <= families.len(),
        families.len() <= u32::MAX,
        !acc.complete(),
        acc.graphics_family matches Some(g) ==> last_graphics_through(families, g as int, i - 1),
        acc.graphics_family is None ==> forall|j: int|
            0 <= j < i ==> !has_graphics(#[trigger] families[j].queue_flags),
        acc.present_family matches Some(p) ==> last_present_through(families, p as int, i - 1),
        acc.present_family is None ==> forall|j: int|
            0 <= j < i ==> !#[trigger] families[j].present_support,
    ensures
        ({
            let r = scan_families(families, i, acc);
            let end = scan_end(families, r);
            &&& r.graphics_family matches Some(g) ==> last_graphics_through(families, g as int, end)
            &&& r.graphics_family is None ==> forall|j: int|
                0 <= j <= end ==> !has_graphics(#[trigger] families[j].queue_flags)
            &&& r.present_family matches Some(p) ==> last_present_through(families, p as int, end)
            &&& r.present_family is None ==> forall|j: int|
                0 <= j <= end ==> !#[trigger] families[j].present_support
            &&& r.complete() ==> both_known_through(families, end)
            &&& forall|k: int| 0 <= k < end ==> !#[trigger] both_known_through(families, k)
        }),
    decreases families.len() - i,
{
    let r = scan_families(families, i, acc);
    if i < families.len() {
        let next = record_family(acc, i, families[i]);
        if next.complete() {
            let g = next.graphics_family.unwrap() as int;
            let p = next.present_family.unwrap() as int;
            assert(has_graphics(families[g].queue_flags));
            assert(families[p].present_support);
        } else {
            lemma_scan_finds_last(families, i + 1, next);
        }
    }
}

/// What queue-family discovery finds, stated directly: the scan ends at the
/// first family by which both a graphics and a present family have been seen
/// (or at the last family, if that never happens), and each index it reports
/// is the last family up to that point that has the capability; a missing
/// index means no family up to that point has it.
pub proof fn lemma_found_families_are_last(families: Seq<QueueFamilySupport>)
    requires
        families.len() <= u32::MAX,
    ensures
        ({
            let r = found_families(families);
            let end = scan_end(families, r);
            &&& r.graphics_family matches Some(g) ==> last_graphics_through(families, g as int, end)
            &&& r.graphics_family is None ==> forall|j: int|
                0 <= j <= end ==> !has_graphics(#[trigger] families[j].queue_flags)
            &&& r.present_family matches Some(p) ==> last_present_through(families, p as int, end)
            &&& r.present_family is None ==> forall|j: int|
                0 <= j <= end ==> !#[trigger] families[j].present_support
            &&& r.complete() ==> both_known_through(families, end)
            &&& forall|k: int| 0 <= k < end ==> !#[trigger] both_known_through(families, k)
        }),
{
    lemma_scan_finds_last(families, 0, empty_indices());
}

} // verus!
