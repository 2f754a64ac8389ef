//! Logical device negotiation (extensions, features, queue) and the
//! double-buffered frame ring with its ownership discipline.
use vstd::prelude::*;
use crate::flags::{contains, QUEUE_GRAPHICS};
use crate::physical_device::{is_graphics, PhysicalDevice, QueueFamily};

verus! {

/// `VK_KHR_swapchain`.
pub const KHR_SWAPCHAIN: &'static str = "VK_KHR_swapchain";

/// `VK_KHR_dynamic_rendering`.
pub const KHR_DYNAMIC_RENDERING: &'static str = "VK_KHR_dynamic_rendering";

/// `VK_KHR_vulkan_memory_model`, used by ray tracing shaders.
pub const KHR_VULKAN_MEMORY_MODEL: &'static str = "VK_KHR_vulkan_memory_model";

/// `VK_KHR_pipeline_library`, a ray tracing dependency.
pub const KHR_PIPELINE_LIBRARY: &'static str = "VK_KHR_pipeline_library";

/// `VK_KHR_deferred_host_operations`, a ray tracing dependency.
pub const KHR_DEFERRED_HOST_OPERATIONS: &'static str = "VK_KHR_deferred_host_operations";

/// `VK_KHR_buffer_device_address`, a ray tracing dependency.
pub const KHR_BUFFER_DEVICE_ADDRESS: &'static str = "VK_KHR_buffer_device_address";

/// `VK_KHR_acceleration_structure`.
pub const KHR_ACCELERATION_STRUCTURE: &'static str = "VK_KHR_acceleration_structure";

/// `VK_KHR_ray_tracing_pipeline`.
pub const KHR_RAY_TRACING_PIPELINE: &'static str = "VK_KHR_ray_tracing_pipeline";

/// The extensions every device must have.
pub open spec fn required_extension_names() -> Seq<Seq<char>> {
    seq![KHR_SWAPCHAIN@, KHR_DYNAMIC_RENDERING@]
}

/// The extensions that ray tracing needs, enabled all together or not at all.
pub open spec fn ray_tracing_extension_names() -> Seq<Seq<char>> {
    seq![
        KHR_VULKAN_MEMORY_MODEL@,
        KHR_PIPELINE_LIBRARY@,
        KHR_DEFERRED_HOST_OPERATIONS@,
        KHR_BUFFER_DEVICE_ADDRESS@,
        KHR_ACCELERATION_STRUCTURE@,
        KHR_RAY_TRACING_PIPELINE@,
    ]
}

/// The names of a list of strings.
pub open spec fn names(list: Seq<String>) -> Seq<Seq<char>> {
    list.map_values(|s: String| s@)
}

/// Appending a string appends its name.
pub proof fn lemma_names_push(list: Seq<String>, s: String)
    ensures
        names(list.push(s)) == names(list).push(s@),
{
    assert(names(list.push(s)) =~= names(list).push(s@));
}

/// `name` is among `supported`.
pub open spec fn is_supported(supported: Seq<String>, name: Seq<char>) -> bool {
    names(supported).contains(name)
}

/// Every name of `wanted` is among `supported`.
pub open spec fn all_supported(supported: Seq<String>, wanted: Seq<Seq<char>>) -> bool {
    forall|i: int| 0 <= i < wanted.len() ==> is_supported(supported, #[trigger] wanted[i])
}

/// Device features, one named switch each. Only dynamic rendering is
/// mandatory; the others are enabled where the device has them.
#[derive(Clone, Copy, Debug, PartialEq, Eq, Structural)]
pub struct DeviceFeatures {
    pub dynamic_rendering: bool,
    pub scalar_block_layout: bool,
    pub descriptor_indexing: bool,
    pub imageless_framebuffer: bool,
    pub shader_float16: bool,
    pub shader_int8: bool,
    pub buffer_device_address: bool,
    pub vulkan_memory_model: bool,
}

/// Why a logical device cannot be made on a physical device.
#[derive(Clone, Debug, PartialEq, Eq)]
pub enum DeviceCreateError {
    /// A required extension is missing; it is named.
    MissingExtension(String),
    /// The device cannot render with dynamic rendering.
    DynamicRenderingUnsupported,
    /// No queue family can run graphics work.
    NoQueueFamily,
}

/// What the logical device is created with.
#[derive(Clone, Debug)]
pub struct DeviceCreateInfo {
    pub queue_family: QueueFamily,
    pub enabled_extensions: Vec<String>,
    pub ray_tracing_enabled: bool,
    pub features: DeviceFeatures,
}

/// The first graphics-capable family, if any.
pub open spec fn first_graphics_family(families: Seq<QueueFamily>) -> Option<int> {
    if exists|i: int| 0 <= i < families.len() && #[trigger] is_graphics(families[i]) {
        Some(
            choose|i: int|
                0 <= i < families.len() && #[trigger] is_graphics(families[i]) && forall|k: int|
                    0 <= k < i ==> !#[trigger] is_graphics(families[k]),
        )
    } else {
        None
    }
}

/// The first required extension that `supported` lacks, if any.
pub open spec fn first_missing_required(supported: Seq<String>) -> Option<Seq<char>> {
    if !is_supported(supported, KHR_SWAPCHAIN@) {
        Some(KHR_SWAPCHAIN@)
    } else if !is_supported(supported, KHR_DYNAMIC_RENDERING@) {
        Some(KHR_DYNAMIC_RENDERING@)
    } else {
        None
    }
}

/// The features to enable: everything the device has, dynamic rendering on.
pub open spec fn spec_negotiate_features(supported: DeviceFeatures) -> DeviceFeatures {
    DeviceFeatures { dynamic_rendering: true, ..supported }
}

/// Whether `name` is in `supported`.
pub fn supports_extension(supported: &Vec<String>, name: &str) -> (r: bool)
    ensures
        r == is_supported(supported@, name@),
{
    let wanted = name.to_owned();
    let mut i: usize = 0;
    while i < supported.len()
        invariant
            i <= supported@.len(),
            wanted@ == name@,
            forall|k: int| 0 <= k < i ==> supported@[k]@ != name@,
        decreases supported@.len() - i,
    {
        if supported[i] == wanted {
            proof {
                assert(names(supported@)[i as int] == name@);
            }
            return true;
        }
        i += 1;
    }
    proof {
        assert forall|k: int| 0 <= k < names(supported@).len() implies names(supported@)[k] != name@ by {
            assert(supported@[k]@ != name@);
        }
    }
    false
}

/// The first graphics-capable queue family of `families`.
pub fn select_universal_queue(families: &Vec<QueueFamily>) -> (r: Option<QueueFamily>)
    ensures
        first_graphics_family(families@) is None <==> r is None,
        r matches Some(f) ==> f == families@[first_graphics_family(families@)->0],
{
    let mut i: usize = 0;
    while i < families.len()
        invariant
            i <= families@.len(),
            forall|k: int| 0 <= k < i ==> !#[trigger] is_graphics(families@[k]),
        decreases families@.len() - i,
    {
        if contains(families[i].properties.queue_flags, QUEUE_GRAPHICS) {
            proof {
                assert(is_graphics(families@[i as int]));
                let c = first_graphics_family(families@)->0;
                if c < i {
                    assert(!is_graphics(families@[c]));
                } else if c > i {
                    assert(!is_graphics(families@[i as int]));
                }
            }
            return Some(families[i]);
        }
        i += 1;
    }
    None
}

impl DeviceCreateInfo {
    /// Negotiates extensions, features and the queue with a physical device.
    /// The swapchain and dynamic-rendering extensions are required, in that
    /// order; the ray tracing set is enabled exactly when every one of it is
    /// supported. Dynamic rendering must be a supported feature; the other
    /// features follow what the device supports. The queue is the first
    /// graphics-capable family.
    pub fn negotiate(
        physical_device: &PhysicalDevice,
        supported_extensions: &Vec<String>,
        supported_features: &DeviceFeatures,
    ) -> (r: Result<DeviceCreateInfo, DeviceCreateError>)
        ensures
            first_missing_required(supported_extensions@) matches Some(name) ==> r matches Err(
                DeviceCreateError::MissingExtension(n),
            ) && n@ == name,
            first_missing_required(supported_extensions@) is None
                && !supported_features.dynamic_rendering ==> r == Err::<DeviceCreateInfo, _>(
                DeviceCreateError::DynamicRenderingUnsupported,
            ),
            first_missing_required(supported_extensions@) is None
                && supported_features.dynamic_rendering && first_graphics_family(
                physical_device.queue_families@,
            ) is None ==> r == Err::<DeviceCreateInfo, _>(DeviceCreateError::NoQueueFamily),
            r is Ok <==> first_missing_required(supported_extensions@) is None
                && supported_features.dynamic_rendering && first_graphics_family(
                physical_device.queue_families@,
            ) is Some,
            r matches Ok(info) ==> {
                let rt = all_supported(supported_extensions@, ray_tracing_extension_names());
                &&& first_missing_required(supported_extensions@) is None
                &&& supported_features.dynamic_rendering
                &&& first_graphics_family(physical_device.queue_families@) matches Some(q)
                &&& info.queue_family == physical_device.queue_families@[q]
                &&& info.ray_tracing_enabled == rt
                &&& names(info.enabled_extensions@) == if rt {
                    required_extension_names() + ray_tracing_extension_names()
                } else {
                    required_extension_names()
                }
                &&& info.features == spec_negotiate_features(*supported_features)
            },
    {
        let ray_tracing = [
            KHR_VULKAN_MEMORY_MODEL,
            KHR_PIPELINE_LIBRARY,
            KHR_DEFERRED_HOST_OPERATIONS,
            KHR_BUFFER_DEVICE_ADDRESS,
            KHR_ACCELERATION_STRUCTURE,
            KHR_RAY_TRACING_PIPELINE,
        ];
        let ghost rt_names = ray_tracing_extension_names();
        let mut ray_tracing_enabled = true;
        let mut i: usize = 0;
        while i < 6
            invariant
                i <= 6,
                forall|k: int| 0 <= k < 6 ==> (#[trigger] ray_tracing@[k])@ == rt_names[k],
                ray_tracing_enabled == forall|k: int|
                    0 <= k < i ==> is_supported(supported_extensions@, #[trigger] rt_names[k]),
            decreases 6 - i,
        {
            if !supports_extension(supported_extensions, ray_tracing[i]) {
                ray_tracing_enabled = false;
            }
            i += 1;
        }
        let mut enabled_extensions: Vec<String> = Vec::new();
        enabled_extensions.push(KHR_SWAPCHAIN.to_owned());
        enabled_extensions.push(KHR_DYNAMIC_RENDERING.to_owned());
        if ray_tracing_enabled {
            let mut j: usize = 0;
            assert(rt_names.len() == 6);
            while j < 6
                invariant
                    j <= 6,
                    rt_names == ray_tracing_extension_names(),
                    forall|k: int| 0 <= k < 6 ==> (#[trigger] ray_tracing@[k])@ == rt_names[k],
                    names(enabled_extensions@) == required_extension_names() + rt_names.subrange(
                        0,
                        j as int,
                    ),
                decreases 6 - j,
            {
                let ghost before = enabled_extensions@;
                let name = ray_tracing[j].to_owned();
                enabled_extensions.push(name);
                proof {
                    lemma_names_push(before, name);
                    assert(names(enabled_extensions@) =~= required_extension_names()
                        + rt_names.subrange(0, j as int + 1));
                }
                j += 1;
            }
            assert(rt_names.subrange(0, 6) =~= rt_names);
        } else {
            assert(names(enabled_extensions@) =~= required_extension_names());
        }
        if !supports_extension(supported_extensions, KHR_SWAPCHAIN) {
            return Err(DeviceCreateError::MissingExtension(KHR_SWAPCHAIN.to_owned()));
        }
        if !supports_extension(supported_extensions, KHR_DYNAMIC_RENDERING) {
            return Err(DeviceCreateError::MissingExtension(KHR_DYNAMIC_RENDERING.to_owned()));
        }
        if !supported_features.dynamic_rendering {
            return Err(DeviceCreateError::DynamicRenderingUnsupported);
        }
        let queue_family = match select_universal_queue(&physical_device.queue_families) {
            Some(f) => f,
            None => {
                return Err(DeviceCreateError::NoQueueFamily);
            },
        };
        let features = DeviceFeatures { dynamic_rendering: true, ..*supported_features };
        Ok(DeviceCreateInfo { queue_family, enabled_extensions, ray_tracing_enabled, features })
    }
}

/// How long the CPU waits on the GPU, in nanoseconds; `u64::MAX` waits
/// without bound.
#[derive(Clone, Copy, Debug, PartialEq, Eq, Structural)]
pub struct WaitTimeouts {
    /// Waiting on a frame's fence in `begin_frame`, and for the device to idle.
    pub fence_ns: u64,
    /// Waiting for the presentation engine to hand out an image.
    pub acquire_ns: u64,
}

impl Default for WaitTimeouts {
    /// Unbounded waits.
    fn default() -> (r: WaitTimeouts)
        ensures
            r.fence_ns == u64::MAX,
            r.acquire_ns == u64::MAX,
    {
        WaitTimeouts { fence_ns: u64::MAX, acquire_ns: u64::MAX }
    }
}

/// A primary command buffer and the fence its submissions signal.
#[derive(Clone, Copy, Debug, PartialEq, Eq, Structural)]
pub struct CommandBuffer {
    pub raw: u64,
    pub submit_done_fence: u64,
}

/// Where a frame slot stands in its cycle.
#[derive(Clone, Copy, Debug, PartialEq, Eq, Structural)]
pub enum FrameState {
    /// Its fence is signalled: nothing of it runs on the GPU.
    Idle,
    /// Claimed by `begin_frame`; commands are being recorded.
    Recording,
    /// Its command buffer was submitted; the fence is unsignalled until the
    /// GPU is done, and the next `begin_frame` on the slot waits for it.
    Submitted,
}

/// One slot of the double buffer.
#[derive(Clone, Copy, Debug, PartialEq, Eq, Structural)]
pub struct DeviceFrame {
    pub swapchain_acquired_semaphore: Option<u64>,
    pub rendering_complete_semaphore: Option<u64>,
    pub main_command_buffer: CommandBuffer,
    pub state: FrameState,
}

impl DeviceFrame {
    /// A fresh slot around its command buffer, whose fence starts signalled.
    pub fn new(main_command_buffer: CommandBuffer) -> (r: DeviceFrame)
        ensures
            r.main_command_buffer == main_command_buffer,
            r.state == FrameState::Idle,
            r.swapchain_acquired_semaphore is None,
            r.rendering_complete_semaphore is None,
    {
        DeviceFrame {
            swapchain_acquired_semaphore: None,
            rendering_complete_semaphore: None,
            main_command_buffer,
            state: FrameState::Idle,
        }
    }
}

/// The checked-out frame that `begin_frame` hands to its one consumer. It
/// cannot be copied; `finish_frame` takes it back.
#[derive(Debug, PartialEq, Eq, Structural)]
pub struct FrameToken {
    pub main_command_buffer: CommandBuffer,
}

/// Misuse of the frame ring.
#[derive(Clone, Copy, Debug, PartialEq, Eq, Structural)]
pub enum FrameError {
    /// The current slot is still held by the consumer of the last `begin_frame`.
    FrameInUse,
}

/// The selected queue: its family and the driver's handle.
#[derive(Clone, Copy, Debug, PartialEq, Eq, Structural)]
pub struct Queue {
    pub raw: u64,
    pub family: QueueFamily,
}

/// The state of the double buffer: the slot the next `begin_frame` claims,
/// the other slot, and whether the current one is checked out.
#[derive(Clone, Copy, Debug, PartialEq, Eq, Structural)]
pub struct FrameRing {
    pub current: DeviceFrame,
    pub other: DeviceFrame,
    pub claimed: bool,
}

/// The two slots hold different command buffers and different fences.
pub open spec fn slots_distinct(ring: FrameRing) -> bool {
    &&& ring.current.main_command_buffer.raw != ring.other.main_command_buffer.raw
    &&& ring.current.main_command_buffer.submit_done_fence
        != ring.other.main_command_buffer.submit_done_fence
}

/// `begin_frame` on a ring: the new ring and what comes back.
pub open spec fn spec_begin(ring: FrameRing) -> (FrameRing, Result<CommandBuffer, FrameError>) {
    if ring.claimed {
        (ring, Err(FrameError::FrameInUse))
    } else {
        (
            FrameRing {
                current: DeviceFrame { state: FrameState::Recording, ..ring.current },
                claimed: true,
                ..ring
            },
            Ok(ring.current.main_command_buffer),
        )
    }
}

/// `mark_submitted` on a ring.
pub open spec fn spec_submit(ring: FrameRing) -> FrameRing {
    FrameRing { current: DeviceFrame { state: FrameState::Submitted, ..ring.current }, ..ring }
}

/// `finish_frame` on a ring: the slot is released and the two slots trade
/// places. A slot released without a submission is idle again.
pub open spec fn spec_finish(ring: FrameRing) -> FrameRing {
    let released = if ring.current.state == FrameState::Recording {
        DeviceFrame { state: FrameState::Idle, ..ring.current }
    } else {
        ring.current
    };
    FrameRing { current: ring.other, other: released, claimed: false }
}

/// The logical device: what was negotiated, the queue, the one-shot setup
/// command buffer, and the two frame slots.
pub struct Device {
    pub physical_device: PhysicalDevice,
    pub universal_queue: Queue,
    pub enabled_extensions: Vec<String>,
    pub ray_tracing_enabled: bool,
    pub features: DeviceFeatures,
    pub setup_cb: CommandBuffer,
    /// Changed only through `begin_frame`, `mark_submitted` and `finish_frame`.
    pub frames: FrameRing,
}

impl View for Device {
    type V = FrameRing;

    open spec fn view(&self) -> FrameRing {
        self.frames
    }
}

impl Device {
    /// Everything but the frame ring is as in `other`.
    pub open spec fn keeps_configuration(&self, other: &Device) -> bool {
        &&& self.physical_device == other.physical_device
        &&& self.universal_queue == other.universal_queue
        &&& self.enabled_extensions@ == other.enabled_extensions@
        &&& self.ray_tracing_enabled == other.ray_tracing_enabled
        &&& self.features == other.features
        &&& self.setup_cb == other.setup_cb
    }

    /// Assembles the device from what was negotiated and the objects the
    /// driver created for it: the queue, one command buffer per frame slot,
    /// and the setup command buffer. Both slots start idle and unclaimed.
    pub fn create(
        physical_device: PhysicalDevice,
        info: DeviceCreateInfo,
        queue_raw: u64,
        frame0: CommandBuffer,
        frame1: CommandBuffer,
        setup_cb: CommandBuffer,
    ) -> (r: Device)
        requires
            frame0.raw != frame1.raw,
            frame0.submit_done_fence != frame1.submit_done_fence,
        ensures
            slots_distinct(r@),
            r.physical_device == physical_device,
            r@.current == DeviceFrame::new_spec(frame0),
            r@.other == DeviceFrame::new_spec(frame1),
            !r@.claimed,
            r.universal_queue == (Queue { raw: queue_raw, family: info.queue_family }),
            r.enabled_extensions@ == info.enabled_extensions@,
            r.ray_tracing_enabled == info.ray_tracing_enabled,
            r.features == info.features,
            r.setup_cb == setup_cb,
    {
        Device {
            physical_device,
            universal_queue: Queue { raw: queue_raw, family: info.queue_family },
            enabled_extensions: info.enabled_extensions,
            ray_tracing_enabled: info.ray_tracing_enabled,
            features: info.features,
            setup_cb,
            frames: FrameRing {
                current: DeviceFrame::new(frame0),
                other: DeviceFrame::new(frame1),
                claimed: false,
            },
        }
    }

    /// Whether the current slot is checked out.
    pub fn frame_claimed(&self) -> (r: bool)
        ensures
            r == self@.claimed,
    {
        self.frames.claimed
    }

    /// The command buffer of the slot that the next `begin_frame` claims.
    pub fn current_command_buffer(&self) -> (r: CommandBuffer)
        ensures
            r == self@.current.main_command_buffer,
    {
        self.frames.current.main_command_buffer
    }

    /// Whether `frame` is the checked-out current slot.
    pub fn holds(&self, frame: &FrameToken) -> (r: bool)
        ensures
            r == (self@.claimed && frame.main_command_buffer == self@.current.main_command_buffer),
    {
        self.frames.claimed && frame.main_command_buffer == self.frames.current.main_command_buffer
    }

    /// Claims the current slot for one consumer. The caller then waits on the
    /// slot's fence before recording into its command buffer. While the slot
    /// is checked out, a second claim fails and changes nothing.
    pub fn begin_frame(&mut self) -> (r: Result<FrameToken, FrameError>)
        ensures
            final(self)@ == spec_begin(old(self)@).0,
            match spec_begin(old(self)@).1 {
                Ok(cb) => r == Ok::<FrameToken, FrameError>(FrameToken { main_command_buffer: cb }),
                Err(e) => r == Err::<FrameToken, FrameError>(e),
            },
            final(self).keeps_configuration(old(self)),
    {
        if self.frames.claimed {
            return Err(FrameError::FrameInUse);
        }
        self.frames.current.state = FrameState::Recording;
        self.frames.claimed = true;
        Ok(FrameToken { main_command_buffer: self.frames.current.main_command_buffer })
    }

    /// Records that the checked-out slot's command buffer was submitted with
    /// its fence.
    pub fn mark_submitted(&mut self, frame: &FrameToken)
        requires
            old(self)@.claimed,
            frame.main_command_buffer == old(self)@.current.main_command_buffer,
        ensures
            final(self)@ == spec_submit(old(self)@),
            final(self).keeps_configuration(old(self)),
    {
        self.frames.current.state = FrameState::Submitted;
    }

    /// Takes back the checked-out slot and swaps the two slots, so that the
    /// next `begin_frame` waits on the other slot's fence.
    pub fn finish_frame(&mut self, frame: FrameToken)
        requires
            old(self)@.claimed,
            frame.main_command_buffer == old(self)@.current.main_command_buffer,
        ensures
            final(self)@ == spec_finish(old(self)@),
            final(self).keeps_configuration(old(self)),
    {
        let FrameToken { main_command_buffer: _ } = frame;
        if self.frames.current.state == FrameState::Recording {
            self.frames.current.state = FrameState::Idle;
        }
        std::mem::swap(&mut self.frames.current, &mut self.frames.other);
        self.frames.claimed = false;
    }
}

impl DeviceFrame {
    pub open spec fn new_spec(main_command_buffer: CommandBuffer) -> DeviceFrame {
        DeviceFrame {
            swapchain_acquired_semaphore: None,
            rendering_complete_semaphore: None,
            main_command_buffer,
            state: FrameState::Idle,
        }
    }
}

/// A second `begin_frame` with no `finish_frame` in between fails with an
/// ownership violation, whatever the ring was before the first.
pub proof fn lemma_begin_twice_fails(ring: FrameRing)
    ensures
        spec_begin(spec_begin(ring).0).1 == Err::<CommandBuffer, FrameError>(FrameError::FrameInUse),
        spec_begin(spec_begin(ring).0).0 == spec_begin(ring).0,
{
}

/// One `begin_frame` / `finish_frame` cycle hands out the current slot and
/// leaves the other one current, whose command buffer and fence differ from
/// the first; after two cycles the first slot is current again. The same
/// holds when the frame is submitted in between, and the slots stay distinct.
pub proof fn lemma_frames_alternate(ring: FrameRing)
    requires
        !ring.claimed,
        slots_distinct(ring),
    ensures
        ({
            let once = spec_finish(spec_begin(ring).0);
            &&& slots_distinct(once)
            &&& spec_begin(once).1 matches Ok(second) && second.raw
                != ring.current.main_command_buffer.raw && second.submit_done_fence
                != ring.current.main_command_buffer.submit_done_fence
        }),
        slots_distinct(spec_finish(spec_submit(spec_begin(ring).0))),
        spec_begin(ring).1 == Ok::<CommandBuffer, FrameError>(ring.current.main_command_buffer),
        ({
            let once = spec_finish(spec_begin(ring).0);
            let twice = spec_finish(spec_begin(once).0);
            &&& !once.claimed
            &&& spec_begin(once).1 == Ok::<CommandBuffer, FrameError>(ring.other.main_command_buffer)
            &&& !twice.claimed
            &&& spec_begin(twice).1 == Ok::<CommandBuffer, FrameError>(ring.current.main_command_buffer)
        }),
        ({
            let once = spec_finish(spec_submit(spec_begin(ring).0));
            let twice = spec_finish(spec_submit(spec_begin(once).0));
            &&& spec_begin(once).1 == Ok::<CommandBuffer, FrameError>(ring.other.main_command_buffer)
            &&& spec_begin(twice).1 == Ok::<CommandBuffer, FrameError>(ring.current.main_command_buffer)
        }),
{
}

} // verus!
