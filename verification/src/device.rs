//! Picking the physical device: the devices are checked in order, and the
//! first suitable one is taken.
//!
//! The search is a small state machine: the caller checks the device the
//! machine asks about and reports the answer back, so that no device is
//! checked after a suitable one has been found.

use vstd::prelude::*;

verus! {

/// Where the search for a device stands.
#[derive(Clone, Copy, PartialEq, Eq, Structural, Debug)]
pub enum DeviceSearch {
    /// Check the device at this position next.
    Probe(usize),
    /// The device at this position is the one to use.
    Select(usize),
    /// There are no devices at all.
    NoDevices,
    /// No device is suitable.
    NoSuitableDevice,
}

pub open spec fn search_start(count: nat) -> DeviceSearch {
    if count == 0 { DeviceSearch::NoDevices } else { DeviceSearch::Probe(0) }
}

pub open spec fn search_next(count: nat, probed: usize, suitable: bool) -> DeviceSearch {
    if suitable {
        DeviceSearch::Select(probed)
    } else if probed + 1 < count {
        DeviceSearch::Probe((probed + 1) as usize)
    } else {
        DeviceSearch::NoSuitableDevice
    }
}

/// The first step of a search among `count` devices.
pub fn begin_device_search(count: usize) -> (state: DeviceSearch)
    ensures
        state == search_start(count as nat),
{
    if count == 0 {
        DeviceSearch::NoDevices
    } else {
        DeviceSearch::Probe(0)
    }
}

/// The step after device `probed` of `count` was found `suitable` or not.
pub fn continue_device_search(count: usize, probed: usize, suitable: bool) -> (state: DeviceSearch)
    requires
        probed < count,
    ensures
        state == search_next(count as nat, probed, suitable),
{
    if suitable {
        DeviceSearch::Select(probed)
    } else if probed + 1 < count {
        DeviceSearch::Probe(probed + 1)
    } else {
        DeviceSearch::NoSuitableDevice
    }
}

/// The state the search reaches from `state` when the devices' suitability
/// is `suitable`, within `fuel` steps.
pub open spec fn run_search(suitable: Seq<bool>, state: DeviceSearch, fuel: nat) -> DeviceSearch
    decreases fuel,
{
    match state {
        DeviceSearch::Probe(i) => {
            if fuel == 0 || i >= suitable.len() {
                state
            } else {
                run_search(suitable, search_next(suitable.len(), i, suitable[i as int]), (fuel - 1) as nat)
            }
        },
        _ => state,
    }
}

/// `index` is the first suitable device.
pub open spec fn first_suitable(suitable: Seq<bool>, index: int) -> bool {
    &&& 0 <= index < suitable.len()
    &&& suitable[index]
    &&& forall|j: int| 0 <= j < index ==> !suitable[j]
}

proof fn lemma_run_from(suitable: Seq<bool>, k: usize)
    requires
        k < suitable.len() <= usize::MAX,
        forall|j: int| 0 <= j < k ==> !suitable[j],
    ensures
        ({
            let end = run_search(suitable, DeviceSearch::Probe(k), (suitable.len() - k) as nat);
            &&& end !is Probe
            &&& end !is NoDevices
            &&& end matches DeviceSearch::Select(i) ==> first_suitable(suitable, i as int)
            &&& end is NoSuitableDevice ==> forall|j: int| 0 <= j < suitable.len() ==> !suitable[j]
        }),
    decreases suitable.len() - k,
{
    let fuel = (suitable.len() - k) as nat;
    if !suitable[k as int] && k + 1 < suitable.len() {
        lemma_run_from(suitable, (k + 1) as usize);
        assert(run_search(suitable, DeviceSearch::Probe(k), fuel) == run_search(
            suitable,
            DeviceSearch::Probe((k + 1) as usize),
            (fuel - 1) as nat,
        ));
    } else if !suitable[k as int] {
        assert(run_search(suitable, DeviceSearch::Probe(k), fuel) == run_search(
            suitable,
            DeviceSearch::NoSuitableDevice,
            (fuel - 1) as nat,
        ));
        assert forall|j: int| 0 <= j < suitable.len() implies !suitable[j] by {
            if j < k {
            } else {
                assert(j == k);
            }
        }
    } else {
        assert(run_search(suitable, DeviceSearch::Probe(k), fuel) == run_search(
            suitable,
            DeviceSearch::Select(k),
            (fuel - 1) as nat,
        ));
    }
}

/// Driven to its end, the search takes the first suitable device; it ends
/// with `NoDevices` exactly when there are none, and with
/// `NoSuitableDevice` exactly when there are some and none is suitable.
pub proof fn law_device_search_takes_first_suitable(suitable: Seq<bool>)
    requires
        suitable.len() <= usize::MAX,
    ensures
        ({
            let end = run_search(suitable, search_start(suitable.len()), suitable.len());
            &&& end !is Probe
            &&& end matches DeviceSearch::Select(i) ==> first_suitable(suitable, i as int)
            &&& (end is NoDevices <==> suitable.len() == 0)
            &&& (end is NoSuitableDevice <==> suitable.len() > 0 && forall|j: int| 0 <= j < suitable.len() ==> !suitable[j])
        }),
{
    if suitable.len() > 0 {
        lemma_run_from(suitable, 0);
    }
}

} // verus!
