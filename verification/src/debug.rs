//! What the validation layers' messages are subscribed to, and how a
//! message's severity is labelled.

use vstd::prelude::*;
use crate::vulkan::{
    has_flags, severity_contains, MESSAGE_TYPE_GENERAL, MESSAGE_TYPE_PERFORMANCE,
    MESSAGE_TYPE_VALIDATION, SEVERITY_ERROR, SEVERITY_WARNING,
};

verus! {

/// The label a message is printed with.
#[derive(Clone, Copy, PartialEq, Eq, Structural, Debug)]
pub enum SeverityLabel {
    Error,
    Warning,
    Info,
}

/// Which messages the debug messenger receives, as raw
/// `VkDebugUtilsMessageSeverityFlagsEXT` and
/// `VkDebugUtilsMessageTypeFlagsEXT` masks.
pub struct DebugMessengerConfig {
    pub message_severity: u32,
    pub message_type: u32,
}

/// The label of a message with severity bits `severity`: an error bit wins
/// over a warning bit; anything else is informational.
pub open spec fn label_of(severity: u32) -> SeverityLabel {
    if has_flags(severity, SEVERITY_ERROR) {
        SeverityLabel::Error
    } else if has_flags(severity, SEVERITY_WARNING) {
        SeverityLabel::Warning
    } else {
        SeverityLabel::Info
    }
}

/// Labels a message by its severity bits.
pub fn severity_label(severity: u32) -> (label: SeverityLabel)
    ensures
        label == label_of(severity),
{
    if severity_contains(severity, SEVERITY_ERROR) {
        SeverityLabel::Error
    } else if severity_contains(severity, SEVERITY_WARNING) {
        SeverityLabel::Warning
    } else {
        SeverityLabel::Info
    }
}

impl SeverityLabel {
    /// The text printed for the label.
    pub fn as_str(&self) -> (text: &'static str)
        ensures
            *self == SeverityLabel::Error ==> text@ == "ERROR"@,
            *self == SeverityLabel::Warning ==> text@ == "WARNING"@,
            *self == SeverityLabel::Info ==> text@ == "INFO"@,
    {
        match self {
            SeverityLabel::Error => "ERROR",
            SeverityLabel::Warning => "WARNING",
            SeverityLabel::Info => "INFO",
        }
    }
}

/// The debug messenger receives warnings and errors of the general,
/// validation and performance kinds.
pub fn make_debug_messenger_config() -> (config: DebugMessengerConfig)
    ensures
        config.message_severity == SEVERITY_WARNING | SEVERITY_ERROR,
        config.message_severity == 0x1100,
        config.message_type == MESSAGE_TYPE_GENERAL | MESSAGE_TYPE_VALIDATION | MESSAGE_TYPE_PERFORMANCE,
        config.message_type == 0x7,
{
    let message_severity = SEVERITY_WARNING | SEVERITY_ERROR;
    let message_type = MESSAGE_TYPE_GENERAL | MESSAGE_TYPE_VALIDATION | MESSAGE_TYPE_PERFORMANCE;
    assert(0x100u32 | 0x1000u32 == 0x1100u32) by (bit_vector);
    assert(0x1u32 | 0x2u32 | 0x4u32 == 0x7u32) by (bit_vector);
    DebugMessengerConfig { message_severity, message_type }
}

} // verus!
