use opengear::queue::QueueFamilyIndices;
use opengear::setup::{instance_config, logical_device_config, InstanceSetupError};

fn strings(names: &[&str]) -> Vec<String> {
    names.iter().map(|s| s.to_string()).collect()
}

#[test]
fn instance_with_validation() {
    let layers = strings(&["VK_LAYER_KHRONOS_validation"]);
    let config = match instance_config(true, &layers, strings(&["VK_KHR_surface"])) {
        Ok(c) => c,
        Err(_) => panic!("validation layer is available"),
    };
    assert_eq!(config.application_name, "OpenGEAR");
    assert_eq!(config.engine_name, "OpenGEAR Engine");
    assert_eq!(config.application_version, 4194304);
    assert_eq!(config.engine_version, 4194304);
    assert_eq!(config.api_version, ash::vk::API_VERSION_1_0);
    assert_eq!(config.extensions, strings(&["VK_KHR_surface", "VK_EXT_debug_utils"]));
    assert_eq!(config.layers, strings(&["VK_LAYER_KHRONOS_validation"]));
    assert!(config.chain_debug_messenger);
}

#[test]
fn instance_without_validation() {
    let config = match instance_config(false, &Vec::new(), strings(&["VK_KHR_surface"])) {
        Ok(c) => c,
        Err(_) => panic!("validation is off"),
    };
    assert_eq!(config.extensions, strings(&["VK_KHR_surface"]));
    assert!(config.layers.is_empty());
    assert!(!config.chain_debug_messenger);
}

#[test]
fn instance_missing_validation_layer() {
    match instance_config(true, &strings(&["VK_LAYER_MESA_overlay"]), Vec::new()) {
        Err(InstanceSetupError::MissingValidationLayer(name)) => {
            assert_eq!(name, "VK_LAYER_KHRONOS_validation")
        }
        Ok(_) => panic!("the validation layer is missing"),
    }
}

#[test]
fn device_config() {
    let indices = QueueFamilyIndices { graphic_family: Some(1), present_family: Some(0) };
    let config = logical_device_config(&indices, true);
    assert_eq!(config.queue_families, vec![1, 0]);
    assert_eq!(config.extensions, strings(&["VK_KHR_swapchain"]));
    assert_eq!(config.layers, strings(&["VK_LAYER_KHRONOS_validation"]));
    let same = QueueFamilyIndices { graphic_family: Some(0), present_family: Some(0) };
    let config = logical_device_config(&same, false);
    assert_eq!(config.queue_families, vec![0]);
    assert!(config.layers.is_empty());
}
