use ash::vk;
use opengear::vulkan::{
    version_1_0, COLOR_SPACE_SRGB_NONLINEAR, COMPOSITE_ALPHA_OPAQUE, FORMAT_B8G8R8A8_SRGB,
    IMAGE_USAGE_COLOR_ATTACHMENT, MESSAGE_TYPE_GENERAL, MESSAGE_TYPE_PERFORMANCE,
    MESSAGE_TYPE_VALIDATION, PRESENT_MODE_FIFO, PRESENT_MODE_MAILBOX, QUEUE_GRAPHICS,
    SEVERITY_ERROR, SEVERITY_WARNING, SHARING_MODE_CONCURRENT, SHARING_MODE_EXCLUSIVE,
};

#[test]
fn raw_values_match_ash() {
    assert_eq!(FORMAT_B8G8R8A8_SRGB, vk::Format::B8G8R8A8_SRGB.as_raw());
    assert_eq!(COLOR_SPACE_SRGB_NONLINEAR, vk::ColorSpaceKHR::SRGB_NONLINEAR.as_raw());
    assert_eq!(PRESENT_MODE_MAILBOX, vk::PresentModeKHR::MAILBOX.as_raw());
    assert_eq!(PRESENT_MODE_FIFO, vk::PresentModeKHR::FIFO.as_raw());
    assert_eq!(SHARING_MODE_EXCLUSIVE, vk::SharingMode::EXCLUSIVE.as_raw());
    assert_eq!(SHARING_MODE_CONCURRENT, vk::SharingMode::CONCURRENT.as_raw());
    assert_eq!(QUEUE_GRAPHICS, vk::QueueFlags::GRAPHICS.as_raw());
    assert_eq!(IMAGE_USAGE_COLOR_ATTACHMENT, vk::ImageUsageFlags::COLOR_ATTACHMENT.as_raw());
    assert_eq!(COMPOSITE_ALPHA_OPAQUE, vk::CompositeAlphaFlagsKHR::OPAQUE.as_raw());
    assert_eq!(SEVERITY_WARNING, vk::DebugUtilsMessageSeverityFlagsEXT::WARNING.as_raw());
    assert_eq!(SEVERITY_ERROR, vk::DebugUtilsMessageSeverityFlagsEXT::ERROR.as_raw());
    assert_eq!(MESSAGE_TYPE_GENERAL, vk::DebugUtilsMessageTypeFlagsEXT::GENERAL.as_raw());
    assert_eq!(MESSAGE_TYPE_VALIDATION, vk::DebugUtilsMessageTypeFlagsEXT::VALIDATION.as_raw());
    assert_eq!(MESSAGE_TYPE_PERFORMANCE, vk::DebugUtilsMessageTypeFlagsEXT::PERFORMANCE.as_raw());
}

#[test]
fn version_1_0_is_api_version_1_0() {
    assert_eq!(version_1_0(), 4194304);
    assert_eq!(version_1_0(), vk::API_VERSION_1_0);
    assert_eq!(version_1_0(), vk::make_api_version(0, 1, 0, 0));
}
