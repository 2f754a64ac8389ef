use strale::device::{CommandBuffer, Device, DeviceCreateInfo, DeviceFeatures};
use strale::flags::QUEUE_GRAPHICS;
use strale::physical_device::{MemoryProperties, PhysicalDevice, PhysicalDeviceType, QueueFamilyProperties};
use strale::buffer::{is_host_visible, write_staging, BufferCopy, BufferDesc, MemoryLocation};
use strale::flags::{BUFFER_USAGE_STORAGE_BUFFER, BUFFER_USAGE_TRANSFER_DST, BUFFER_USAGE_TRANSFER_SRC};

fn device() -> Device {
    let pd = PhysicalDevice::new(
        1,
        PhysicalDeviceType::IntegratedGpu,
        vec![QueueFamilyProperties { queue_flags: QUEUE_GRAPHICS, queue_count: 1 }],
        MemoryProperties { memory_types: vec![] },
    );
    let features = DeviceFeatures {
        dynamic_rendering: true,
        scalar_block_layout: false,
        descriptor_indexing: false,
        imageless_framebuffer: false,
        shader_float16: false,
        shader_int8: false,
        buffer_device_address: false,
        vulkan_memory_model: false,
    };
    let supported = vec!["VK_KHR_swapchain".to_string(), "VK_KHR_dynamic_rendering".to_string()];
    let info = DeviceCreateInfo::negotiate(&pd, &supported, &features).unwrap();
    Device::create(
        pd,
        info,
        3,
        CommandBuffer { raw: 1, submit_done_fence: 2 },
        CommandBuffer { raw: 4, submit_done_fence: 5 },
        CommandBuffer { raw: 6, submit_done_fence: 7 },
    )
}

#[test]
fn initial_data_adds_transfer_destination_and_staging() {
    let desc = BufferDesc { size: 64, usage: BUFFER_USAGE_STORAGE_BUFFER, memory_location: MemoryLocation::GpuOnly };
    let data = [1u8, 2, 3];
    let plan = device().create_buffer(desc, Some(&data));
    assert_eq!(plan.desc.usage, BUFFER_USAGE_STORAGE_BUFFER | BUFFER_USAGE_TRANSFER_DST);
    assert_eq!(plan.desc.size, 64);
    assert_eq!(plan.desc.memory_location, MemoryLocation::GpuOnly);
    let upload = plan.upload.unwrap();
    assert_eq!(upload.staging, BufferDesc { size: 64, usage: BUFFER_USAGE_TRANSFER_SRC, memory_location: MemoryLocation::CpuToGpu });
    assert_eq!(upload.copy, BufferCopy { src_offset: 0, dst_offset: 0, size: 64 });
}

#[test]
fn no_initial_data_keeps_description() {
    let desc = BufferDesc { size: 16, usage: BUFFER_USAGE_STORAGE_BUFFER, memory_location: MemoryLocation::CpuToGpu };
    let plan = device().create_buffer(desc, None);
    assert_eq!(plan.desc, desc);
    assert!(plan.upload.is_none());
}

#[test]
fn staged_bytes_read_back_identical() {
    let desc = BufferDesc { size: 8, usage: BUFFER_USAGE_STORAGE_BUFFER, memory_location: MemoryLocation::CpuToGpu };
    let data = [9u8, 8, 7, 6, 5];
    let plan = device().create_buffer(desc, Some(&data));
    let upload = plan.upload.unwrap();
    let mut staging = vec![0xAAu8; upload.staging.size];
    write_staging(&mut staging, &data);
    assert_eq!(&staging[..5], &data);
    assert_eq!(&staging[5..], &[0xAA, 0xAA, 0xAA]);
    // The planned copy moves the staging bytes over whole.
    let mut destination = vec![0u8; plan.desc.size];
    let c = upload.copy;
    destination[c.dst_offset as usize..(c.dst_offset + c.size) as usize]
        .copy_from_slice(&staging[c.src_offset as usize..(c.src_offset + c.size) as usize]);
    assert_eq!(&destination[..data.len()], &data);
}

#[test]
fn staging_fill_of_full_size_and_empty_data() {
    let mut staging = vec![1u8; 4];
    write_staging(&mut staging, &[5, 6, 7, 8]);
    assert_eq!(staging, vec![5, 6, 7, 8]);
    write_staging(&mut staging, &[]);
    assert_eq!(staging, vec![5, 6, 7, 8]);
}

#[test]
fn host_visibility() {
    assert!(is_host_visible(MemoryLocation::CpuToGpu));
    assert!(is_host_visible(MemoryLocation::GpuToCpu));
    assert!(!is_host_visible(MemoryLocation::GpuOnly));
    assert!(!is_host_visible(MemoryLocation::Unknown));
}
