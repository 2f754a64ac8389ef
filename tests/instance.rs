use strale::instance::{classify_debug_message, starts_with, DebugMessageAction, Instance};

#[test]
fn builder_starts_empty() {
    let b = Instance::builder();
    assert!(b.required_extensions.is_empty());
    assert!(!b.graphics_debugging);
}

#[test]
fn core_extensions_are_appended() {
    let b = Instance::builder().required_extensions(vec!["VK_KHR_surface".to_string()]);
    assert_eq!(
        b.required_extensions,
        vec![
            "VK_KHR_surface".to_string(),
            "VK_KHR_get_physical_device_properties2".to_string(),
            "VK_EXT_debug_report".to_string(),
            "VK_EXT_debug_utils".to_string(),
        ]
    );
}

#[test]
fn instance_requests_vulkan_1_3_with_validation() {
    let i = Instance::builder().required_extensions(vec![]).build();
    assert_eq!(i.api_version, (1 << 22) | (3 << 12));
    assert_eq!(i.api_version, 4_206_592);
    assert_eq!(i.enabled_layers, vec!["VK_LAYER_KHRONOS_validation".to_string()]);
    assert_eq!(i.enabled_extensions.len(), 3);
}

#[test]
fn false_positives_are_dropped() {
    let m = b"Validation Error: [ VUID-VkWriteDescriptorSet-descriptorType-00322 ] Object 0";
    assert_eq!(classify_debug_message(m), DebugMessageAction::Ignore);
    let m = b"Validation Error: [ VUID-VkWriteDescriptorSet-descriptorType-02752 ] x";
    assert_eq!(classify_debug_message(m), DebugMessageAction::Ignore);
    let m = b"Validation Performance Warning: [ UNASSIGNED ] slow";
    assert_eq!(classify_debug_message(m), DebugMessageAction::Ignore);
}

#[test]
fn undefined_rule_is_a_warning() {
    let m = b"Validation Warning: [ VUID_Undefined ] something";
    assert_eq!(classify_debug_message(m), DebugMessageAction::Warn);
}

#[test]
fn other_messages_are_errors() {
    assert_eq!(classify_debug_message(b"Validation Error: [ VUID-vkCmdDraw-None-02859 ]"), DebugMessageAction::Error);
    assert_eq!(classify_debug_message(b""), DebugMessageAction::Error);
    assert_eq!(classify_debug_message(b"Validation Warning: [ VUID_Undefined"), DebugMessageAction::Error);
}

#[test]
fn prefix_test() {
    assert!(starts_with(b"abcdef", "abc"));
    assert!(starts_with(b"abc", "abc"));
    assert!(starts_with(b"abc", ""));
    assert!(!starts_with(b"ab", "abc"));
    assert!(!starts_with(b"abd", "abc"));
}
