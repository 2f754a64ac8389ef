//! The instance: requested API version, extensions and layers, and the
//! routing of validation messages.
use vstd::prelude::*;
use vstd::string::StringSliceAdditionalSpecFns;
use crate::device::names;

verus! {

/// `VK_KHR_get_physical_device_properties2`.
pub const KHR_GET_PHYSICAL_DEVICE_PROPERTIES2: &'static str = "VK_KHR_get_physical_device_properties2";

/// `VK_EXT_debug_report`.
pub const EXT_DEBUG_REPORT: &'static str = "VK_EXT_debug_report";

/// `VK_EXT_debug_utils`.
pub const EXT_DEBUG_UTILS: &'static str = "VK_EXT_debug_utils";

/// The Khronos validation layer.
pub const KHRONOS_VALIDATION_LAYER: &'static str = "VK_LAYER_KHRONOS_validation";

/// Validation reports a false error on pushing immutable sampler descriptors
/// under these two rules.
pub const IMMUTABLE_SAMPLER_FALSE_POSITIVE_A: &'static str =
    "Validation Error: [ VUID-VkWriteDescriptorSet-descriptorType-00322";

pub const IMMUTABLE_SAMPLER_FALSE_POSITIVE_B: &'static str =
    "Validation Error: [ VUID-VkWriteDescriptorSet-descriptorType-02752";

pub const PERFORMANCE_WARNING: &'static str = "Validation Performance Warning";

pub const UNDEFINED_RULE_WARNING: &'static str = "Validation Warning: [ VUID_Undefined ]";

/// Gathers what the instance is created with.
pub struct DeviceBuilder {
    pub required_extensions: Vec<String>,
    pub graphics_debugging: bool,
}

impl Default for DeviceBuilder {
    fn default() -> (r: DeviceBuilder)
        ensures
            r.required_extensions@.len() == 0,
            !r.graphics_debugging,
    {
        DeviceBuilder { required_extensions: Vec::new(), graphics_debugging: false }
    }
}

/// The instance extensions the core adds to those the window system needs.
pub open spec fn core_instance_extensions() -> Seq<Seq<char>> {
    seq![KHR_GET_PHYSICAL_DEVICE_PROPERTIES2@, EXT_DEBUG_REPORT@, EXT_DEBUG_UTILS@]
}

/// The API version requested: 1.3.0.
pub open spec fn api_version_1_3() -> u32 {
    (1 * 0x40_0000 + 3 * 0x1000) as u32
}

/// Relies on ash::vk::make_api_version: the variant goes to bits 29 to 31,
/// the major version to bits 22 to 28, the minor to bits 12 to 21 and the
/// patch to bits 0 to 11.
#[verifier::external_body]
fn make_api_version(variant: u32, major: u32, minor: u32, patch: u32) -> (r: u32)
    requires
        variant < 8,
        major < 128,
        minor < 1024,
        patch < 4096,
    ensures
        r == variant * 0x2000_0000 + major * 0x40_0000 + minor * 0x1000 + patch,
{
    ash::vk::make_api_version(variant, major, minor, patch)
}

/// What the instance is created with: a debug-report callback for errors,
/// warnings and performance warnings is installed with it.
pub struct Instance {
    pub api_version: u32,
    pub enabled_extensions: Vec<String>,
    pub enabled_layers: Vec<String>,
}

impl Instance {
    /// A builder with no extension and no graphics debugging.
    pub fn builder() -> (r: DeviceBuilder)
        ensures
            r.required_extensions@.len() == 0,
            !r.graphics_debugging,
    {
        DeviceBuilder::default()
    }
}

impl DeviceBuilder {
    /// Takes the extensions the window system needs and adds the core's own.
    pub fn required_extensions(self, required_extensions: Vec<String>) -> (r: DeviceBuilder)
        ensures
            names(r.required_extensions@) == names(required_extensions@)
                + core_instance_extensions(),
            r.graphics_debugging == self.graphics_debugging,
    {
        let mut extensions = required_extensions;
        let ghost given = names(extensions@);
        let a = KHR_GET_PHYSICAL_DEVICE_PROPERTIES2.to_owned();
        let b = EXT_DEBUG_REPORT.to_owned();
        let c = EXT_DEBUG_UTILS.to_owned();
        let ghost start = extensions@;
        extensions.push(a);
        extensions.push(b);
        extensions.push(c);
        assert(extensions@ == start.push(a).push(b).push(c));
        assert(names(extensions@) =~= given + core_instance_extensions());
        DeviceBuilder { required_extensions: extensions, graphics_debugging: self.graphics_debugging }
    }

    /// The instance to create: API 1.3, the gathered extensions, and the
    /// Khronos validation layer.
    pub fn build(self) -> (r: Instance)
        ensures
            r.api_version == api_version_1_3(),
            r.enabled_extensions@ == self.required_extensions@,
            names(r.enabled_layers@) == seq![KHRONOS_VALIDATION_LAYER@],
    {
        let mut enabled_layers: Vec<String> = Vec::new();
        enabled_layers.push(KHRONOS_VALIDATION_LAYER.to_owned());
        assert(names(enabled_layers@) =~= seq![KHRONOS_VALIDATION_LAYER@]);
        Instance {
            api_version: make_api_version(0, 1, 3, 0),
            enabled_extensions: self.required_extensions,
            enabled_layers,
        }
    }
}

/// Where a validation message goes.
#[derive(Clone, Copy, Debug, PartialEq, Eq, Structural)]
pub enum DebugMessageAction {
    /// A known false positive or a performance note: dropped.
    Ignore,
    /// Logged as a warning.
    Warn,
    /// Logged as an error.
    Error,
}

/// `message` begins with `prefix`.
pub open spec fn has_prefix(message: Seq<u8>, prefix: Seq<u8>) -> bool {
    prefix.len() <= message.len() && message.subrange(0, prefix.len() as int) == prefix
}

/// Whether `message` begins with the bytes of `prefix`.
pub fn starts_with(message: &[u8], prefix: &str) -> (r: bool)
    ensures
        r == has_prefix(message@, prefix.spec_bytes()),
{
    let p = prefix.as_bytes();
    if p.len() > message.len() {
        return false;
    }
    let mut i: usize = 0;
    while i < p.len()
        invariant
            p@ == prefix.spec_bytes(),
            p@.len() <= message@.len(),
            i <= p@.len(),
            forall|k: int| 0 <= k < i ==> message@[k] == p@[k],
        decreases p@.len() - i,
    {
        if message[i] != p[i] {
            assert(message@.subrange(0, p@.len() as int)[i as int] != p@[i as int]);
            return false;
        }
        i += 1;
    }
    assert(message@.subrange(0, p@.len() as int) =~= p@);
    true
}

pub open spec fn spec_classify_debug_message(message: Seq<u8>) -> DebugMessageAction {
    if has_prefix(message, IMMUTABLE_SAMPLER_FALSE_POSITIVE_A.spec_bytes()) || has_prefix(
        message,
        IMMUTABLE_SAMPLER_FALSE_POSITIVE_B.spec_bytes(),
    ) || has_prefix(message, PERFORMANCE_WARNING.spec_bytes()) {
        DebugMessageAction::Ignore
    } else if has_prefix(message, UNDEFINED_RULE_WARNING.spec_bytes()) {
        DebugMessageAction::Warn
    } else {
        DebugMessageAction::Error
    }
}

/// Routes a validation message: the immutable-sampler false positives and
/// performance notes are dropped, warnings under an undefined rule are
/// warnings, everything else is an error. No message aborts anything.
pub fn classify_debug_message(message: &[u8]) -> (r: DebugMessageAction)
    ensures
        r == spec_classify_debug_message(message@),
{
    if starts_with(message, IMMUTABLE_SAMPLER_FALSE_POSITIVE_A) || starts_with(
        message,
        IMMUTABLE_SAMPLER_FALSE_POSITIVE_B,
    ) || starts_with(message, PERFORMANCE_WARNING) {
        DebugMessageAction::Ignore
    } else if starts_with(message, UNDEFINED_RULE_WARNING) {
        DebugMessageAction::Warn
    } else {
        DebugMessageAction::Error
    }
}

} // verus!
