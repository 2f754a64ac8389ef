//! Snapshots of the GPUs present, the presentation filter, the choice of one
//! device, and the memory-type lookup.
use vstd::prelude::*;
use crate::flags::{bit_set, contains, has_flags, test_bit, QUEUE_GRAPHICS};

verus! {

/// The class of a physical device.
#[derive(Clone, Copy, Debug, PartialEq, Eq, Structural)]
pub enum PhysicalDeviceType {
    Other,
    IntegratedGpu,
    DiscreteGpu,
    VirtualGpu,
    Cpu,
}

/// What a queue family of a device reports, before it is numbered.
#[derive(Clone, Copy, Debug, PartialEq, Eq, Structural)]
pub struct QueueFamilyProperties {
    pub queue_flags: u32,
    pub queue_count: u32,
}

/// A queue family and its position in the device's list.
#[derive(Clone, Copy, Debug, PartialEq, Eq, Structural)]
pub struct QueueFamily {
    pub index: u32,
    pub properties: QueueFamilyProperties,
}

/// One entry of a device's memory-type table.
#[derive(Clone, Copy, Debug, PartialEq, Eq, Structural)]
pub struct MemoryType {
    pub property_flags: u32,
    pub heap_index: u32,
}

/// The memory-type table of a device; Vulkan caps it at 32 entries.
#[derive(Clone, Debug)]
pub struct MemoryProperties {
    pub memory_types: Vec<MemoryType>,
}

/// The largest memory-type table a device reports.
pub const MAX_MEMORY_TYPES: usize = 32;

/// An immutable snapshot of one GPU.
#[derive(Clone, Debug)]
pub struct PhysicalDevice {
    pub raw: u64,
    pub device_type: PhysicalDeviceType,
    pub queue_families: Vec<QueueFamily>,
    pub memory_properties: MemoryProperties,
}

/// A drawable surface, with the queue families that reported presentation
/// support for it: each entry is a device handle and a family index.
#[derive(Clone, Debug)]
pub struct Surface {
    pub raw: u64,
    pub presentable_families: Vec<(u64, u32)>,
}

pub open spec fn is_graphics(family: QueueFamily) -> bool {
    has_flags(family.properties.queue_flags, QUEUE_GRAPHICS)
}

impl Surface {
    pub open spec fn spec_can_present(&self, device: u64, family: u32) -> bool {
        exists|k: int| 0 <= k < self.presentable_families@.len()
            && #[trigger] self.presentable_families@[k] == (device, family)
    }

    /// Whether the family of the device can present to this surface.
    pub fn can_present(&self, device: u64, family: u32) -> (r: bool)
        ensures
            r == self.spec_can_present(device, family),
    {
        let mut k: usize = 0;
        while k < self.presentable_families.len()
            invariant
                k <= self.presentable_families@.len(),
                forall|j: int| 0 <= j < k ==> #[trigger] self.presentable_families@[j] != (device, family),
            decreases self.presentable_families@.len() - k,
        {
            let (d, f) = self.presentable_families[k];
            if d == device && f == family {
                return true;
            }
            k += 1;
        }
        false
    }
}

impl PhysicalDevice {
    /// Numbers the queue families in the order the driver listed them.
    pub fn new(
        raw: u64,
        device_type: PhysicalDeviceType,
        families: Vec<QueueFamilyProperties>,
        memory_properties: MemoryProperties,
    ) -> (r: PhysicalDevice)
        requires
            families@.len() <= u32::MAX,
        ensures
            r.raw == raw,
            r.device_type == device_type,
            r.memory_properties == memory_properties,
            r.queue_families@.len() == families@.len(),
            forall|i: int| 0 <= i < families@.len() ==> #[trigger] r.queue_families@[i]
                == (QueueFamily { index: i as u32, properties: families@[i] }),
    {
        let mut queue_families: Vec<QueueFamily> = Vec::new();
        let mut i: usize = 0;
        while i < families.len()
            invariant
                i <= families@.len(),
                families@.len() <= u32::MAX,
                queue_families@.len() == i,
                forall|j: int| 0 <= j < i ==> #[trigger] queue_families@[j]
                    == (QueueFamily { index: j as u32, properties: families@[j] }),
            decreases families@.len() - i,
        {
            queue_families.push(QueueFamily { index: i as u32, properties: families[i] });
            i += 1;
        }
        PhysicalDevice { raw, device_type, queue_families, memory_properties }
    }

    /// Some graphics-capable family of this device can present to `surface`.
    pub open spec fn spec_presents_to(&self, surface: &Surface) -> bool {
        exists|j: int| 0 <= j < self.queue_families@.len()
            && #[trigger] is_graphics(self.queue_families@[j])
            && surface.spec_can_present(self.raw, self.queue_families@[j].index)
    }

    /// Whether a graphics-capable family of this device can present to `surface`.
    pub fn presents_to(&self, surface: &Surface) -> (r: bool)
        ensures
            r == self.spec_presents_to(surface),
    {
        let mut j: usize = 0;
        while j < self.queue_families.len()
            invariant
                j <= self.queue_families@.len(),
                forall|k: int| 0 <= k < j ==> !(#[trigger] is_graphics(self.queue_families@[k])
                    && surface.spec_can_present(self.raw, self.queue_families@[k].index)),
            decreases self.queue_families@.len() - j,
        {
            let family = self.queue_families[j];
            if contains(family.properties.queue_flags, QUEUE_GRAPHICS) && surface.can_present(
                self.raw,
                family.index,
            ) {
                assert(is_graphics(self.queue_families@[j as int]));
                return true;
            }
            j += 1;
        }
        false
    }
}

/// The devices that can present to `surface` through a graphics-capable
/// family, in the order they were listed.
pub open spec fn spec_with_presentation_support(devices: Seq<PhysicalDevice>, surface: &Surface) -> Seq<
    PhysicalDevice,
> {
    devices.filter(|d: PhysicalDevice| d.spec_presents_to(surface))
}

/// Narrowing a list of device snapshots to those that can present.
pub trait PhysicalDeviceList: Sized + View<V = Seq<PhysicalDevice>> {
    /// Keeps the devices with a graphics-capable family that can present to
    /// `surface`, in order.
    fn with_presentation_support(self, surface: &Surface) -> (r: Self)
        ensures
            r@ == spec_with_presentation_support(self@, surface),
    ;
}

impl PhysicalDeviceList for Vec<PhysicalDevice> {
    fn with_presentation_support(self, surface: &Surface) -> (r: Self) {
        keep_presentable(self, surface)
    }
}

/// Keeps the devices with a graphics-capable family that can present to
/// `surface`, in order.
fn keep_presentable(devices: Vec<PhysicalDevice>, surface: &Surface) -> (r: Vec<
    PhysicalDevice,
>)
    ensures
        r@ == spec_with_presentation_support(devices@, surface),
{
    let ghost all = devices@;
    let mut rest = devices;
    let total = rest.len();
    let mut kept: Vec<PhysicalDevice> = Vec::new();
    let mut i: usize = 0;
    while rest.len() > 0
        invariant
            i <= all.len(),
            total == all.len(),
            rest@ == all.subrange(i as int, all.len() as int),
            kept@ == spec_with_presentation_support(all.subrange(0, i as int), surface),
        decreases rest@.len(),
    {
        let device = rest.remove(0);
        proof {
            reveal(Seq::filter);
            assert(all.subrange(0, i as int + 1).drop_last() =~= all.subrange(0, i as int));
            assert(all.subrange(0, i as int + 1).last() == device);
        }
        if device.presents_to(surface) {
            kept.push(device);
        }
        i += 1;
        assert(rest@ =~= all.subrange(i as int, all.len() as int));
    }
    assert(all.subrange(0, i as int) =~= all);
    kept
}

/// The rank of a device class: discrete GPUs above all others.
pub open spec fn spec_device_score(t: PhysicalDeviceType) -> u32 {
    if t == PhysicalDeviceType::DiscreteGpu {
        1000
    } else {
        0
    }
}

pub fn device_score(t: PhysicalDeviceType) -> (r: u32)
    ensures
        r == spec_device_score(t),
{
    match t {
        PhysicalDeviceType::DiscreteGpu => 1000,
        _ => 0,
    }
}

/// The highest-scoring device, the first listed among equals; `None` when
/// the list is empty.
pub fn select_physical_device(devices: &Vec<PhysicalDevice>) -> (r: Option<usize>)
    ensures
        r is None <==> devices@.len() == 0,
        r matches Some(i) ==> {
            &&& i < devices@.len()
            &&& forall|k: int| 0 <= k < devices@.len() ==> spec_device_score(
                #[trigger] devices@[k].device_type,
            ) <= spec_device_score(devices@[i as int].device_type)
            &&& forall|k: int| 0 <= k < i ==> spec_device_score(#[trigger] devices@[k].device_type)
                < spec_device_score(devices@[i as int].device_type)
        },
{
    if devices.len() == 0 {
        return None;
    }
    let mut best: usize = 0;
    let mut best_score: u32 = device_score(devices[0].device_type);
    let mut i: usize = 1;
    while i < devices.len()
        invariant
            1 <= i <= devices@.len(),
            best < i,
            best_score == spec_device_score(devices@[best as int].device_type),
            forall|k: int| 0 <= k < i ==> spec_device_score(#[trigger] devices@[k].device_type)
                <= best_score,
            forall|k: int| 0 <= k < best ==> spec_device_score(#[trigger] devices@[k].device_type)
                < best_score,
        decreases devices@.len() - i,
    {
        let score = device_score(devices[i].device_type);
        if score > best_score {
            best = i;
            best_score = score;
        }
        i += 1;
    }
    Some(best)
}

/// Memory type `i` is allowed by `type_filter` and has every flag of `property_flags`.
pub open spec fn memory_type_fits(
    memory_properties: &MemoryProperties,
    type_filter: u32,
    property_flags: u32,
    i: int,
) -> bool {
    &&& bit_set(type_filter, i as u32)
    &&& has_flags(memory_properties.memory_types@[i].property_flags, property_flags)
}

/// The first memory type that `type_filter` allows and that has all of
/// `property_flags`.
pub fn get_memory_type_index(
    memory_properties: &MemoryProperties,
    type_filter: u32,
    property_flags: u32,
) -> (r: Option<u32>)
    requires
        memory_properties.memory_types@.len() <= MAX_MEMORY_TYPES,
    ensures
        r matches Some(i) ==> {
            &&& i < memory_properties.memory_types@.len()
            &&& memory_type_fits(memory_properties, type_filter, property_flags, i as int)
            &&& forall|j: int| 0 <= j < i ==> !#[trigger] memory_type_fits(
                memory_properties,
                type_filter,
                property_flags,
                j,
            )
        },
        r is None ==> forall|j: int| 0 <= j < memory_properties.memory_types@.len() ==> !#[trigger] memory_type_fits(
            memory_properties,
            type_filter,
            property_flags,
            j,
        ),
{
    let count = memory_properties.memory_types.len();
    let mut i: usize = 0;
    while i < count
        invariant
            count == memory_properties.memory_types@.len(),
            count <= MAX_MEMORY_TYPES,
            i <= count,
            forall|j: int| 0 <= j < i ==> !#[trigger] memory_type_fits(
                memory_properties,
                type_filter,
                property_flags,
                j,
            ),
        decreases count - i,
    {
        let flags = memory_properties.memory_types[i].property_flags;
        if test_bit(type_filter, i as u32) && contains(flags, property_flags) {
            return Some(i as u32);
        }
        i += 1;
    }
    None
}

} // verus!
