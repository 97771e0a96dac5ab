use opengear::debug::{make_debug_messenger_config, severity_label, SeverityLabel};

#[test]
fn severity_labels() {
    assert_eq!(severity_label(0x1000), SeverityLabel::Error);
    assert_eq!(severity_label(0x1100), SeverityLabel::Error);
    assert_eq!(severity_label(0x100), SeverityLabel::Warning);
    assert_eq!(severity_label(0x110), SeverityLabel::Warning);
    assert_eq!(severity_label(0x10), SeverityLabel::Info);
    assert_eq!(severity_label(0x1), SeverityLabel::Info);
    assert_eq!(severity_label(0), SeverityLabel::Info);
}

#[test]
fn label_texts() {
    assert_eq!(SeverityLabel::Error.as_str(), "ERROR");
    assert_eq!(SeverityLabel::Warning.as_str(), "WARNING");
    assert_eq!(SeverityLabel::Info.as_str(), "INFO");
}

#[test]
fn messenger_subscription() {
    let config = make_debug_messenger_config();
    assert_eq!(config.message_severity, 0x1100);
    assert_eq!(config.message_type, 0x7);
    assert_eq!(
        config.message_severity,
        (ash::vk::DebugUtilsMessageSeverityFlagsEXT::WARNING | ash::vk::DebugUtilsMessageSeverityFlagsEXT::ERROR).as_raw()
    );
}
