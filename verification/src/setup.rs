//! What the instance and the logical device are created with.

use vstd::prelude::*;
use crate::names::{
    all_present, device_extension_names, device_extensions, enabled_layers, first_missing_at,
    get_required_extensions, instance_extension_names, missing_validation_layer, names_view,
    validation_layer_names, validation_layers,
};
use crate::queue::{unique_queue_families, QueueFamilyIndices};
use crate::vulkan::version_1_0;

verus! {

/// The settings of `vkCreateInstance`.
pub struct InstanceConfig {
    pub application_name: String,
    pub application_version: u32,
    pub engine_name: String,
    pub engine_version: u32,
    pub api_version: u32,
    pub extensions: Vec<String>,
    pub layers: Vec<String>,
    /// Whether a debug messenger's settings are chained to the creation, so
    /// that instance creation itself is reported on.
    pub chain_debug_messenger: bool,
}

/// Why the instance cannot be set up.
pub enum InstanceSetupError {
    /// Validation is on, and this validation layer is not available.
    MissingValidationLayer(String),
}

/// The settings of `vkCreateDevice`.
pub struct DeviceConfig {
    pub queue_families: Vec<u32>,
    pub extensions: Vec<String>,
    pub layers: Vec<String>,
}

/// The instance settings, given whether validation is on, the layers the
/// Vulkan installation offers (read only when validation is on) and the
/// extensions the window system needs.
pub fn instance_config(
    enable_validation: bool,
    available_layers: &Vec<String>,
    surface_extensions: Vec<String>,
) -> (config: Result<InstanceConfig, InstanceSetupError>)
    ensures
        config is Err <==> enable_validation && !all_present(validation_layer_names(), names_view(available_layers@)),
        config matches Err(InstanceSetupError::MissingValidationLayer(name)) ==> exists|i: int|
            first_missing_at(validation_layer_names(), names_view(available_layers@), i)
                && name@ == #[trigger] validation_layer_names()[i],
        config matches Ok(c) ==> {
            &&& c.application_name@ == "OpenGEAR"@
            &&& c.engine_name@ == "OpenGEAR Engine"@
            &&& c.application_version == 0x400000
            &&& c.engine_version == 0x400000
            &&& c.api_version == 0x400000
            &&& names_view(c.extensions@) == instance_extension_names(names_view(surface_extensions@), enable_validation)
            &&& names_view(c.layers@) == (if enable_validation { validation_layer_names() } else { Seq::empty() })
            &&& c.chain_debug_messenger == enable_validation
        },
{
    if enable_validation {
        if let Some(i) = missing_validation_layer(available_layers) {
            let required = validation_layers();
            let name = required[i].clone();
            assert(name@ == names_view(required@)[i as int]);
            return Err(InstanceSetupError::MissingValidationLayer(name));
        }
    }
    let version = version_1_0();
    Ok(InstanceConfig {
        application_name: "OpenGEAR".to_owned(),
        application_version: version,
        engine_name: "OpenGEAR Engine".to_owned(),
        engine_version: version,
        api_version: version,
        extensions: get_required_extensions(surface_extensions, enable_validation),
        layers: enabled_layers(enable_validation),
        chain_debug_messenger: enable_validation,
    })
}

/// The logical device settings: one queue on each distinct family in use,
/// the required device extensions, and the validation layers when
/// validation is on.
pub fn logical_device_config(indices: &QueueFamilyIndices, enable_validation: bool) -> (config: DeviceConfig)
    requires
        indices.complete(),
    ensures
        config.queue_families@.no_duplicates(),
        config.queue_families@.to_set() == set![indices.graphic_family->0, indices.present_family->0],
        config.queue_families@[0] == indices.graphic_family->0,
        names_view(config.extensions@) == device_extension_names(),
        names_view(config.layers@) == (if enable_validation { validation_layer_names() } else { Seq::empty() }),
{
    DeviceConfig {
        queue_families: unique_queue_families(indices),
        extensions: device_extensions(),
        layers: enabled_layers(enable_validation),
    }
}

} // verus!
