use opengear::queue::{
    find_queue_families, is_device_suitable, record_queue_family, unique_queue_families,
    QueueFamilyIndices, QueueFamilyProbe,
};

fn probe(queue_flags: u32, present_support: bool) -> QueueFamilyProbe {
    QueueFamilyProbe { queue_flags, present_support }
}

const GRAPHICS: u32 = 0x1;
const COMPUTE: u32 = 0x2;
const TRANSFER: u32 = 0x4;

#[test]
fn is_complete_needs_both() {
    let none = QueueFamilyIndices::new();
    assert!(!none.is_complete());
    let only_graphics = QueueFamilyIndices { graphic_family: Some(0), present_family: None };
    assert!(!only_graphics.is_complete());
    let only_present = QueueFamilyIndices { graphic_family: None, present_family: Some(3) };
    assert!(!only_present.is_complete());
    let both = QueueFamilyIndices { graphic_family: Some(0), present_family: Some(3) };
    assert!(both.is_complete());
}

#[test]
fn one_family_does_both() {
    let probes = vec![probe(GRAPHICS | COMPUTE | TRANSFER, true), probe(GRAPHICS, true)];
    let indices = find_queue_families(&probes);
    assert_eq!(indices.graphic_family, Some(0));
    assert_eq!(indices.present_family, Some(0));
}

#[test]
fn separate_families() {
    let probes = vec![probe(COMPUTE, true), probe(GRAPHICS | TRANSFER, false), probe(GRAPHICS, true)];
    let indices = find_queue_families(&probes);
    assert_eq!(indices.graphic_family, Some(1));
    assert_eq!(indices.present_family, Some(0));
}

#[test]
fn scan_stops_when_complete() {
    let probes = vec![probe(GRAPHICS, false), probe(COMPUTE, true), probe(GRAPHICS, true)];
    let indices = find_queue_families(&probes);
    assert_eq!(indices.graphic_family, Some(0));
    assert_eq!(indices.present_family, Some(1));
}

#[test]
fn later_family_overrides_until_complete() {
    let probes = vec![probe(GRAPHICS, false), probe(GRAPHICS, false), probe(TRANSFER, true)];
    let indices = find_queue_families(&probes);
    assert_eq!(indices.graphic_family, Some(1));
    assert_eq!(indices.present_family, Some(2));
}

#[test]
fn no_suitable_family() {
    let probes = vec![probe(COMPUTE, false), probe(TRANSFER, true)];
    let indices = find_queue_families(&probes);
    assert_eq!(indices.graphic_family, None);
    assert_eq!(indices.present_family, Some(1));
    assert!(!is_device_suitable(&probes));
    assert!(!is_device_suitable(&Vec::new()));
}

#[test]
fn suitable_device() {
    assert!(is_device_suitable(&vec![probe(COMPUTE, true), probe(GRAPHICS, false)]));
}

#[test]
fn record_uses_graphics_bit() {
    let start = QueueFamilyIndices::new();
    let next = record_queue_family(start, 7, probe(COMPUTE | TRANSFER, false));
    assert_eq!(next.graphic_family, None);
    assert_eq!(next.present_family, None);
    let next = record_queue_family(next, 8, probe(GRAPHICS | COMPUTE, true));
    assert_eq!(next.graphic_family, Some(8));
    assert_eq!(next.present_family, Some(8));
}

#[test]
fn unique_families() {
    let same = QueueFamilyIndices { graphic_family: Some(2), present_family: Some(2) };
    assert_eq!(unique_queue_families(&same), vec![2]);
    let differ = QueueFamilyIndices { graphic_family: Some(0), present_family: Some(1) };
    assert_eq!(unique_queue_families(&differ), vec![0, 1]);
}
