use strale::flags::{contains, test_bit, MEMORY_PROPERTY_DEVICE_LOCAL, MEMORY_PROPERTY_HOST_COHERENT, MEMORY_PROPERTY_HOST_VISIBLE, QUEUE_GRAPHICS};
use strale::physical_device::{
    get_memory_type_index, select_physical_device, PhysicalDeviceList, MemoryProperties,
    MemoryType, PhysicalDevice, PhysicalDeviceType, QueueFamilyProperties, Surface,
};

fn device(raw: u64, t: PhysicalDeviceType, flags: &[u32]) -> PhysicalDevice {
    let families = flags
        .iter()
        .map(|&f| QueueFamilyProperties { queue_flags: f, queue_count: 4 })
        .collect();
    PhysicalDevice::new(raw, t, families, MemoryProperties { memory_types: vec![] })
}

#[test]
fn flag_containment() {
    assert!(contains(0b111, 0b101));
    assert!(!contains(0b011, 0b101));
    assert!(contains(5, 0));
    assert!(test_bit(0b100, 2));
    assert!(!test_bit(0b100, 1));
}

#[test]
fn queue_families_are_numbered_in_order() {
    let d = device(9, PhysicalDeviceType::Cpu, &[4, 1, 2]);
    let idx: Vec<u32> = d.queue_families.iter().map(|f| f.index).collect();
    assert_eq!(idx, vec![0, 1, 2]);
    assert_eq!(d.queue_families[1].properties.queue_flags, 1);
}

#[test]
fn presentation_filter_keeps_graphics_families_that_present() {
    let a = device(1, PhysicalDeviceType::IntegratedGpu, &[QUEUE_GRAPHICS]);
    let b = device(2, PhysicalDeviceType::DiscreteGpu, &[0x2, QUEUE_GRAPHICS]);
    let c = device(3, PhysicalDeviceType::DiscreteGpu, &[0x2, QUEUE_GRAPHICS]);
    let d = device(4, PhysicalDeviceType::DiscreteGpu, &[QUEUE_GRAPHICS]);
    // c presents only from a compute family; d presents nowhere.
    let surface = Surface { raw: 77, presentable_families: vec![(1, 0), (2, 1), (3, 0)] };
    let kept = vec![a, b, c, d].with_presentation_support(&surface);
    let raws: Vec<u64> = kept.iter().map(|d| d.raw).collect();
    assert_eq!(raws, vec![1, 2]);
    assert!(surface.can_present(2, 1));
    assert!(!surface.can_present(2, 0));
}

#[test]
fn presentation_filter_on_empty_list() {
    let surface = Surface { raw: 1, presentable_families: vec![] };
    let none: Vec<PhysicalDevice> = vec![];
    assert!(none.with_presentation_support(&surface).is_empty());
}

#[test]
fn discrete_gpu_is_preferred() {
    let list = vec![
        device(1, PhysicalDeviceType::IntegratedGpu, &[1]),
        device(2, PhysicalDeviceType::DiscreteGpu, &[1]),
        device(3, PhysicalDeviceType::DiscreteGpu, &[1]),
    ];
    assert_eq!(select_physical_device(&list), Some(1));
}

#[test]
fn ties_go_to_the_first_listed() {
    let list = vec![
        device(1, PhysicalDeviceType::IntegratedGpu, &[1]),
        device(2, PhysicalDeviceType::VirtualGpu, &[1]),
    ];
    assert_eq!(select_physical_device(&list), Some(0));
}

#[test]
fn no_device_is_no_selection() {
    assert_eq!(select_physical_device(&vec![]), None);
}

#[test]
fn memory_type_lookup() {
    let props = MemoryProperties {
        memory_types: vec![
            MemoryType { property_flags: MEMORY_PROPERTY_DEVICE_LOCAL, heap_index: 0 },
            MemoryType { property_flags: MEMORY_PROPERTY_HOST_VISIBLE, heap_index: 1 },
            MemoryType { property_flags: MEMORY_PROPERTY_HOST_VISIBLE | MEMORY_PROPERTY_HOST_COHERENT, heap_index: 1 },
            MemoryType { property_flags: MEMORY_PROPERTY_HOST_VISIBLE | MEMORY_PROPERTY_HOST_COHERENT, heap_index: 1 },
        ],
    };
    let wanted = MEMORY_PROPERTY_HOST_VISIBLE | MEMORY_PROPERTY_HOST_COHERENT;
    assert_eq!(get_memory_type_index(&props, 0xffff_ffff, wanted), Some(2));
    assert_eq!(get_memory_type_index(&props, 0b1000, wanted), Some(3));
    assert_eq!(get_memory_type_index(&props, 0b0011, wanted), None);
    assert_eq!(get_memory_type_index(&props, 0b0001, MEMORY_PROPERTY_DEVICE_LOCAL), Some(0));
}

#[test]
fn memory_type_lookup_on_full_table() {
    let mut memory_types = vec![MemoryType { property_flags: 0, heap_index: 0 }; 32];
    memory_types[31] = MemoryType { property_flags: MEMORY_PROPERTY_DEVICE_LOCAL, heap_index: 0 };
    let props = MemoryProperties { memory_types };
    assert_eq!(get_memory_type_index(&props, 0x8000_0000, MEMORY_PROPERTY_DEVICE_LOCAL), Some(31));
    assert_eq!(get_memory_type_index(&props, 0x7fff_ffff, MEMORY_PROPERTY_DEVICE_LOCAL), None);
    assert_eq!(get_memory_type_index(&props, 0x0000_0004, 0), Some(2));
}
