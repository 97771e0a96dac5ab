use opengear::names::{
    check_device_extension_support, check_validation_layer_support, contains_name,
    device_extensions, enabled_layers, first_missing, get_required_extensions,
    missing_validation_layer, validation_layers,
};

fn strings(names: &[&str]) -> Vec<String> {
    names.iter().map(|s| s.to_string()).collect()
}

#[test]
fn validation_layer_present() {
    let available = strings(&["VK_LAYER_MESA_overlay", "VK_LAYER_KHRONOS_validation"]);
    assert!(check_validation_layer_support(&available));
    assert_eq!(missing_validation_layer(&available), None);
}

#[test]
fn validation_layer_missing() {
    let available = strings(&["VK_LAYER_MESA_overlay"]);
    assert!(!check_validation_layer_support(&available));
    assert_eq!(missing_validation_layer(&available), Some(0));
    assert!(!check_validation_layer_support(&Vec::new()));
}

#[test]
fn names_compare_exactly() {
    let available = strings(&["VK_LAYER_KHRONOS_validation_extra", "vk_layer_khronos_validation"]);
    assert!(!check_validation_layer_support(&available));
    assert!(contains_name(&available, &"vk_layer_khronos_validation".to_string()));
    assert!(!contains_name(&available, &"VK_LAYER_KHRONOS".to_string()));
}

#[test]
fn first_missing_reports_first() {
    let required = strings(&["a", "b", "c"]);
    assert_eq!(first_missing(&required, &strings(&["c", "a"])), Some(1));
    assert_eq!(first_missing(&required, &strings(&["b"])), Some(0));
    assert_eq!(first_missing(&required, &strings(&["c", "b", "a"])), None);
    assert_eq!(first_missing(&Vec::new(), &Vec::new()), None);
}

#[test]
fn swapchain_extension_required() {
    assert!(check_device_extension_support(&strings(&["VK_KHR_maintenance1", "VK_KHR_swapchain"])));
    assert!(!check_device_extension_support(&strings(&["VK_KHR_maintenance1"])));
    assert!(!check_device_extension_support(&Vec::new()));
}

#[test]
fn required_lists() {
    assert_eq!(validation_layers(), strings(&["VK_LAYER_KHRONOS_validation"]));
    assert_eq!(device_extensions(), strings(&["VK_KHR_swapchain"]));
    assert_eq!(enabled_layers(true), strings(&["VK_LAYER_KHRONOS_validation"]));
    assert!(enabled_layers(false).is_empty());
}

#[test]
fn instance_extensions_with_validation() {
    let surface = strings(&["VK_KHR_surface", "VK_KHR_xlib_surface"]);
    assert_eq!(
        get_required_extensions(surface.clone(), true),
        strings(&["VK_KHR_surface", "VK_KHR_xlib_surface", "VK_EXT_debug_utils"])
    );
    assert_eq!(get_required_extensions(surface.clone(), false), surface);
    assert_eq!(get_required_extensions(Vec::new(), true), strings(&["VK_EXT_debug_utils"]));
}

#[test]
fn support_kept_by_more_names() {
    let available = strings(&["VK_LAYER_KHRONOS_validation"]);
    let mut more = available.clone();
    more.push("VK_LAYER_MESA_overlay".to_string());
    assert!(check_validation_layer_support(&available));
    assert!(check_validation_layer_support(&more));
}
