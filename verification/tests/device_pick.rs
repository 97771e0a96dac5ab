use opengear::device::{begin_device_search, continue_device_search, DeviceSearch};

fn drive(suitable: &[bool]) -> DeviceSearch {
    let mut state = begin_device_search(suitable.len());
    let mut probes = 0;
    while let DeviceSearch::Probe(i) = state {
        probes += 1;
        assert!(probes <= suitable.len());
        state = continue_device_search(suitable.len(), i, suitable[i]);
    }
    state
}

#[test]
fn no_devices() {
    assert_eq!(begin_device_search(0), DeviceSearch::NoDevices);
    assert_eq!(drive(&[]), DeviceSearch::NoDevices);
}

#[test]
fn first_suitable_taken() {
    assert_eq!(drive(&[false, true, true]), DeviceSearch::Select(1));
    assert_eq!(drive(&[true]), DeviceSearch::Select(0));
}

#[test]
fn none_suitable() {
    assert_eq!(drive(&[false, false]), DeviceSearch::NoSuitableDevice);
}

#[test]
fn steps() {
    assert_eq!(begin_device_search(3), DeviceSearch::Probe(0));
    assert_eq!(continue_device_search(3, 0, false), DeviceSearch::Probe(1));
    assert_eq!(continue_device_search(3, 2, false), DeviceSearch::NoSuitableDevice);
    assert_eq!(continue_device_search(3, 1, true), DeviceSearch::Select(1));
}
