//! Vulkan bit-flag values used by the core, and the flag containment test.
use vstd::prelude::*;

verus! {

/// `VK_QUEUE_GRAPHICS_BIT`.
pub const QUEUE_GRAPHICS: u32 = 0x1;

/// `VK_BUFFER_USAGE_TRANSFER_SRC_BIT`.
pub const BUFFER_USAGE_TRANSFER_SRC: u32 = 0x1;

/// `VK_BUFFER_USAGE_TRANSFER_DST_BIT`.
pub const BUFFER_USAGE_TRANSFER_DST: u32 = 0x2;

/// `VK_BUFFER_USAGE_STORAGE_BUFFER_BIT`.
pub const BUFFER_USAGE_STORAGE_BUFFER: u32 = 0x20;

/// `VK_BUFFER_USAGE_INDEX_BUFFER_BIT`.
pub const BUFFER_USAGE_INDEX_BUFFER: u32 = 0x40;

/// `VK_BUFFER_USAGE_SHADER_DEVICE_ADDRESS_BIT`.
pub const BUFFER_USAGE_SHADER_DEVICE_ADDRESS: u32 = 0x20000;

/// `VK_MEMORY_PROPERTY_DEVICE_LOCAL_BIT`.
pub const MEMORY_PROPERTY_DEVICE_LOCAL: u32 = 0x1;

/// `VK_MEMORY_PROPERTY_HOST_VISIBLE_BIT`.
pub const MEMORY_PROPERTY_HOST_VISIBLE: u32 = 0x2;

/// `VK_MEMORY_PROPERTY_HOST_COHERENT_BIT`.
pub const MEMORY_PROPERTY_HOST_COHERENT: u32 = 0x4;

/// `VK_SHADER_STAGE_FRAGMENT_BIT`.
pub const SHADER_STAGE_FRAGMENT: u32 = 0x10;

/// `VK_SHADER_STAGE_ALL`.
pub const SHADER_STAGE_ALL: u32 = 0x7FFF_FFFF;

/// `VK_PIPELINE_STAGE_TOP_OF_PIPE_BIT`.
pub const PIPELINE_STAGE_TOP_OF_PIPE: u32 = 0x1;

/// `VK_PIPELINE_STAGE_FRAGMENT_SHADER_BIT`.
pub const PIPELINE_STAGE_FRAGMENT_SHADER: u32 = 0x80;

/// `VK_PIPELINE_STAGE_COLOR_ATTACHMENT_OUTPUT_BIT`.
pub const PIPELINE_STAGE_COLOR_ATTACHMENT_OUTPUT: u32 = 0x400;

/// `VK_PIPELINE_STAGE_BOTTOM_OF_PIPE_BIT`.
pub const PIPELINE_STAGE_BOTTOM_OF_PIPE: u32 = 0x2000;

/// `VK_ACCESS_COLOR_ATTACHMENT_WRITE_BIT`.
pub const ACCESS_COLOR_ATTACHMENT_WRITE: u32 = 0x100;

/// `VK_IMAGE_LAYOUT_UNDEFINED`.
pub const IMAGE_LAYOUT_UNDEFINED: i32 = 0;

/// `VK_IMAGE_LAYOUT_COLOR_ATTACHMENT_OPTIMAL`.
pub const IMAGE_LAYOUT_COLOR_ATTACHMENT_OPTIMAL: i32 = 2;

/// `VK_IMAGE_LAYOUT_PRESENT_SRC_KHR`.
pub const IMAGE_LAYOUT_PRESENT_SRC: i32 = 1_000_001_002;

/// Every bit of `required` is set in `value`.
pub open spec fn has_flags(value: u32, required: u32) -> bool {
    value & required == required
}

/// Bit `i` of `mask` is set.
pub open spec fn bit_set(mask: u32, i: u32) -> bool {
    (mask >> i) & 1 == 1
}

/// Flag containment, as Vulkan flag types define `contains`.
pub fn contains(value: u32, required: u32) -> (r: bool)
    ensures
        r == has_flags(value, required),
{
    value & required == required
}

/// Tests bit `i` of `mask`.
pub fn test_bit(mask: u32, i: u32) -> (r: bool)
    requires
        i < 32,
    ensures
        r == bit_set(mask, i),
{
    (mask >> i) & 1 == 1
}

/// Setting a flag makes it contained, and keeps what was there.
pub proof fn lemma_or_contains(value: u32, flag: u32)
    ensures
        has_flags(value | flag, flag),
        has_flags(value | flag, value),
{
    assert((value | flag) & flag == flag) by (bit_vector);
    assert((value | flag) & value == value) by (bit_vector);
}

} // verus!
