//! Raw Vulkan values that the decisions depend on, and the few `ash`
//! helpers that compute on plain integers.
//!
//! Enumerations and flag sets of Vulkan are held here as their raw
//! integer values, which is how `ash` itself stores them.

use vstd::prelude::*;

verus! {

/// `VK_FORMAT_B8G8R8A8_SRGB`.
pub const FORMAT_B8G8R8A8_SRGB: i32 = 50;

/// `VK_COLOR_SPACE_SRGB_NONLINEAR_KHR`.
pub const COLOR_SPACE_SRGB_NONLINEAR: i32 = 0;

/// `VK_PRESENT_MODE_MAILBOX_KHR`.
pub const PRESENT_MODE_MAILBOX: i32 = 1;

/// `VK_PRESENT_MODE_FIFO_KHR`.
pub const PRESENT_MODE_FIFO: i32 = 2;

/// `VK_SHARING_MODE_EXCLUSIVE`.
pub const SHARING_MODE_EXCLUSIVE: i32 = 0;

/// `VK_SHARING_MODE_CONCURRENT`.
pub const SHARING_MODE_CONCURRENT: i32 = 1;

/// `VK_QUEUE_GRAPHICS_BIT`.
pub const QUEUE_GRAPHICS: u32 = 0x1;

/// `VK_IMAGE_USAGE_COLOR_ATTACHMENT_BIT`.
pub const IMAGE_USAGE_COLOR_ATTACHMENT: u32 = 0x10;

/// `VK_COMPOSITE_ALPHA_OPAQUE_BIT_KHR`.
pub const COMPOSITE_ALPHA_OPAQUE: u32 = 0x1;

/// `VK_DEBUG_UTILS_MESSAGE_SEVERITY_WARNING_BIT_EXT`.
pub const SEVERITY_WARNING: u32 = 0x100;

/// `VK_DEBUG_UTILS_MESSAGE_SEVERITY_ERROR_BIT_EXT`.
pub const SEVERITY_ERROR: u32 = 0x1000;

/// `VK_DEBUG_UTILS_MESSAGE_TYPE_GENERAL_BIT_EXT`.
pub const MESSAGE_TYPE_GENERAL: u32 = 0x1;

/// `VK_DEBUG_UTILS_MESSAGE_TYPE_VALIDATION_BIT_EXT`.
pub const MESSAGE_TYPE_VALIDATION: u32 = 0x2;

/// `VK_DEBUG_UTILS_MESSAGE_TYPE_PERFORMANCE_BIT_EXT`.
pub const MESSAGE_TYPE_PERFORMANCE: u32 = 0x4;

/// Every bit of `flag` is set in `bits`: what `contains` means on a Vulkan
/// flag set.
pub open spec fn has_flags(bits: u32, flag: u32) -> bool {
    bits & flag == flag
}

/// The packed version number of `VK_MAKE_API_VERSION`.
pub open spec fn packed_api_version(variant: u32, major: u32, minor: u32, patch: u32) -> u32 {
    (variant << 29u32) | (major << 22u32) | (minor << 12u32) | patch
}

/// Calls `ash::vk::DebugUtilsMessageSeverityFlagsEXT::contains` on the two
/// raw masks; in `ash` its result is `self & other == other`.
#[verifier::external_body]
pub(crate) fn severity_contains(bits: u32, flag: u32) -> (r: bool)
    ensures
        r == has_flags(bits, flag),
{
    ash::vk::DebugUtilsMessageSeverityFlagsEXT::from_raw(bits).contains(
        ash::vk::DebugUtilsMessageSeverityFlagsEXT::from_raw(flag),
    )
}

/// Calls `ash::vk::QueueFlags::contains` on the two raw masks; in `ash` its
/// result is `self & other == other`.
#[verifier::external_body]
pub(crate) fn queue_flags_contain(bits: u32, flag: u32) -> (r: bool)
    ensures
        r == has_flags(bits, flag),
{
    ash::vk::QueueFlags::from_raw(bits).contains(ash::vk::QueueFlags::from_raw(flag))
}

/// Calls `ash::vk::make_api_version`, which `ash` defines as
/// `(variant << 29) | (major << 22) | (minor << 12) | patch` on `u32`.
#[verifier::external_body]
pub(crate) fn make_api_version(variant: u32, major: u32, minor: u32, patch: u32) -> (r: u32)
    ensures
        r == packed_api_version(variant, major, minor, patch),
{
    ash::vk::make_api_version(variant, major, minor, patch)
}

/// Reads `ash::ext::debug_utils::NAME`, the name of the debug-utils
/// instance extension, which `ash` defines as the C string
/// `"VK_EXT_debug_utils"`, and returns it as a `String`.
#[verifier::external_body]
pub(crate) fn debug_utils_extension_name() -> (name: String)
    ensures
        name@ == "VK_EXT_debug_utils"@,
{
    ash::ext::debug_utils::NAME.to_string_lossy().into_owned()
}

/// `VK_MAKE_API_VERSION(0, 1, 0, 0)`, the version the application and
/// engine announce, and also `VK_API_VERSION_1_0`.
pub fn version_1_0() -> (v: u32)
    ensures
        v == packed_api_version(0, 1, 0, 0),
        v == 0x400000,
{
    let v = make_api_version(0, 1, 0, 0);
    assert(packed_api_version(0, 1, 0, 0) == 0x400000u32) by (bit_vector);
    v
}

} // verus!
