//! Choosing the queue families of a physical device.

use vstd::prelude::*;
use crate::vulkan::{has_flags, queue_flags_contain, QUEUE_GRAPHICS};

verus! {

/// The queue families picked on a device: one that runs graphics work and
/// one that can present to the window's surface (possibly the same).
pub struct QueueFamilyIndices {
    pub graphic_family: Option<u32>,
    pub present_family: Option<u32>,
}

/// What the implementation reports of one queue family: its raw
/// `VkQueueFlags`, and whether it can present to the surface.
#[derive(Clone, Copy)]
pub struct QueueFamilyProbe {
    pub queue_flags: u32,
    pub present_support: bool,
}

impl QueueFamilyIndices {
    /// Both families have been found.
    pub open spec fn complete(self) -> bool {
        self.graphic_family is Some && self.present_family is Some
    }

    /// Indices with neither family found yet.
    pub fn new() -> (indices: QueueFamilyIndices)
        ensures
            indices == no_families(),
    {
        QueueFamilyIndices { graphic_family: None, present_family: None }
    }

    /// Whether both families have been found.
    pub fn is_complete(&self) -> (complete: bool)
        ensures
            complete == self.complete(),
    {
        self.graphic_family.is_some() && self.present_family.is_some()
    }
}

pub open spec fn no_families() -> QueueFamilyIndices {
    QueueFamilyIndices { graphic_family: None, present_family: None }
}

/// The family supports graphics work.
pub open spec fn supports_graphics(probe: QueueFamilyProbe) -> bool {
    has_flags(probe.queue_flags, QUEUE_GRAPHICS)
}

/// The indices after looking at family `index`: a family that supports
/// graphics, or presentation, takes that role.
pub open spec fn record_family(indices: QueueFamilyIndices, index: u32, probe: QueueFamilyProbe) -> QueueFamilyIndices {
    QueueFamilyIndices {
        graphic_family: if supports_graphics(probe) { Some(index) } else { indices.graphic_family },
        present_family: if probe.present_support { Some(index) } else { indices.present_family },
    }
}

/// The indices after scanning the first `n` families in order, stopping as
/// soon as both roles are filled.
pub open spec fn scan_families(probes: Seq<QueueFamilyProbe>, n: nat) -> QueueFamilyIndices
    decreases n,
{
    if n == 0 {
        no_families()
    } else {
        let prev = scan_families(probes, (n - 1) as nat);
        if prev.complete() {
            prev
        } else {
            record_family(prev, (n - 1) as u32, probes[n - 1])
        }
    }
}

/// The queue families a device's families give, scanned in order.
pub open spec fn queue_families_of(probes: Seq<QueueFamilyProbe>) -> QueueFamilyIndices {
    scan_families(probes, probes.len())
}

/// Looks at family `index`, given what the implementation reports of it.
pub fn record_queue_family(indices: QueueFamilyIndices, index: u32, probe: QueueFamilyProbe) -> (next: QueueFamilyIndices)
    ensures
        next == record_family(indices, index, probe),
{
    let graphic_family = if queue_flags_contain(probe.queue_flags, QUEUE_GRAPHICS) {
        Some(index)
    } else {
        indices.graphic_family
    };
    let present_family = if probe.present_support {
        Some(index)
    } else {
        indices.present_family
    };
    QueueFamilyIndices { graphic_family, present_family }
}

/// Once both roles are filled, the scan keeps its result.
pub proof fn lemma_scan_stays_complete(probes: Seq<QueueFamilyProbe>, m: nat, n: nat)
    requires
        m <= n,
        scan_families(probes, m).complete(),
    ensures
        scan_families(probes, n) == scan_families(probes, m),
    decreases n - m,
{
    if n > m {
        lemma_scan_stays_complete(probes, m, (n - 1) as nat);
    }
}


/// A family chosen by the scan is one of the device's families, and has the
/// capability of its role.
pub proof fn lemma_scan_sound(probes: Seq<QueueFamilyProbe>, n: nat)
    requires
        n <= probes.len(),
        probes.len() <= 0x1_0000_0000,
    ensures
        scan_families(probes, n).graphic_family matches Some(g) ==> g < n && supports_graphics(probes[g as int]),
        scan_families(probes, n).present_family matches Some(p) ==> p < n && probes[p as int].present_support,
    decreases n,
{
    if n > 0 {
        lemma_scan_sound(probes, (n - 1) as nat);
    }
}

/// Once a family of a role has been seen, the scan has a family for that
/// role.
pub proof fn lemma_scan_finds(probes: Seq<QueueFamilyProbe>, n: nat)
    requires
        n <= probes.len(),
    ensures
        (exists|i: int| 0 <= i < n && supports_graphics(#[trigger] probes[i])) ==> scan_families(probes, n).graphic_family is Some,
        (exists|i: int| 0 <= i < n && (#[trigger] probes[i]).present_support) ==> scan_families(probes, n).present_family is Some,
    decreases n,
{
    if n > 0 {
        lemma_scan_finds(probes, (n - 1) as nat);
        let prev = scan_families(probes, (n - 1) as nat);
        if exists|i: int| 0 <= i < n && supports_graphics(#[trigger] probes[i]) {
            let i = choose|i: int| 0 <= i < n && supports_graphics(#[trigger] probes[i]);
            if i < n - 1 {
                assert(prev.graphic_family is Some);
            }
        }
        if exists|i: int| 0 <= i < n && (#[trigger] probes[i]).present_support {
            let i = choose|i: int| 0 <= i < n && (#[trigger] probes[i]).present_support;
            if i < n - 1 {
                assert(prev.present_family is Some);
            }
        }
    }
}

/// The families picked for a device are its own families, each able to do
/// the work of its role.
pub proof fn law_queue_families_sound(probes: Seq<QueueFamilyProbe>)
    requires
        probes.len() <= 0x1_0000_0000,
    ensures
        queue_families_of(probes).graphic_family matches Some(g) ==> g < probes.len() && supports_graphics(probes[g as int]),
        queue_families_of(probes).present_family matches Some(p) ==> p < probes.len() && probes[p as int].present_support,
{
    lemma_scan_sound(probes, probes.len());
}

/// The search for queue families succeeds exactly when the device has a
/// family that supports graphics and a family that can present.
pub proof fn law_queue_families_complete(probes: Seq<QueueFamilyProbe>)
    requires
        probes.len() <= 0x1_0000_0000,
    ensures
        queue_families_of(probes).complete() <==> (
            (exists|i: int| 0 <= i < probes.len() && supports_graphics(#[trigger] probes[i]))
            && (exists|j: int| 0 <= j < probes.len() && (#[trigger] probes[j]).present_support)
        ),
{
    lemma_scan_sound(probes, probes.len());
    lemma_scan_finds(probes, probes.len());
    let r = queue_families_of(probes);
    if r.complete() {
        let g = r.graphic_family->0;
        let p = r.present_family->0;
        assert(supports_graphics(probes[g as int]));
        assert(probes[p as int].present_support);
    }
}

/// The scan reads only the families it has passed.
pub proof fn lemma_scan_prefix(probes: Seq<QueueFamilyProbe>, more: Seq<QueueFamilyProbe>, n: nat)
    requires
        n <= probes.len(),
    ensures
        scan_families(probes + more, n) == scan_families(probes, n),
    decreases n,
{
    if n > 0 {
        lemma_scan_prefix(probes, more, (n - 1) as nat);
        assert((probes + more)[n - 1] == probes[n - 1]);
    }
}

/// Families after the point where both roles are filled do not change the
/// choice.
pub proof fn law_queue_families_ignore_later(probes: Seq<QueueFamilyProbe>, more: Seq<QueueFamilyProbe>)
    requires
        queue_families_of(probes).complete(),
    ensures
        queue_families_of(probes + more) == queue_families_of(probes),
{
    lemma_scan_prefix(probes, more, probes.len());
    lemma_scan_stays_complete(probes + more, probes.len(), (probes + more).len());
}

/// Picks the graphics and present families from the families of a device,
/// in order, stopping at the first point where both are found.
pub fn find_queue_families(probes: &Vec<QueueFamilyProbe>) -> (indices: QueueFamilyIndices)
    ensures
        indices == queue_families_of(probes@),
{
    let mut indices = QueueFamilyIndices::new();
    let mut i: usize = 0;
    while i < probes.len()
        invariant_except_break
            i <= probes.len(),
            indices == scan_families(probes@, i as nat),
            !indices.complete(),
        ensures
            indices == queue_families_of(probes@),
        decreases probes.len() - i,
    {
        indices = record_queue_family(indices, i as u32, probes[i]);
        i = i + 1;
        if indices.is_complete() {
            proof {
                lemma_scan_stays_complete(probes@, i as nat, probes@.len());
            }
            break;
        }
    }
    indices
}

/// Whether a device can serve this program: both a graphics family and a
/// present family are found among its queue families.
pub fn is_device_suitable(probes: &Vec<QueueFamilyProbe>) -> (suitable: bool)
    ensures
        suitable == queue_families_of(probes@).complete(),
{
    find_queue_families(probes).is_complete()
}

/// The distinct queue families to create queues on: the graphics family,
/// and the present family when it differs.
pub fn unique_queue_families(indices: &QueueFamilyIndices) -> (families: Vec<u32>)
    requires
        indices.complete(),
    ensures
        families@.no_duplicates(),
        families@.to_set() == set![indices.graphic_family->0, indices.present_family->0],
        families@[0] == indices.graphic_family->0,
{
    let graphics = indices.graphic_family.unwrap();
    let present = indices.present_family.unwrap();
    let mut families: Vec<u32> = Vec::new();
    families.push(graphics);
    if present != graphics {
        families.push(present);
        proof {
            assert(families@ =~= seq![graphics, present]);
            assert(families@.to_set() =~= set![graphics, present]) by {
                assert forall|x: u32| families@.to_set().contains(x) <==> set![graphics, present].contains(x) by {
                    if x == graphics { assert(families@[0] == x); }
                    if x == present { assert(families@[1] == x); }
                }
            }
        }
    } else {
        proof {
            assert(families@ =~= seq![graphics]);
            assert(families@.to_set() =~= set![graphics, present]) by {
                assert forall|x: u32| families@.to_set().contains(x) <==> set![graphics, present].contains(x) by {
                    if x == graphics { assert(families@[0] == x); }
                }
            }
        }
    }
    families
}

} // verus!
