use strale::bindless_descriptor_set::{
    create_bindless_descriptor_set, create_bindless_descriptor_set_layout, BindlessDescriptorSet,
    DescriptorWrite, BINDLESS_BINDING_COUNT,
};
use strale::buffer::{Buffer, BufferDesc, MemoryLocation};
use strale::commands::{
    flipped_viewport, full_rect, image_transition, AccessKind, BarrierMasks, Command, Rect2D, Viewport,
};
use strale::device::{CommandBuffer, Device, DeviceCreateInfo, DeviceFeatures};
use strale::flags::{
    ACCESS_COLOR_ATTACHMENT_WRITE, BUFFER_USAGE_STORAGE_BUFFER, IMAGE_LAYOUT_COLOR_ATTACHMENT_OPTIMAL,
    IMAGE_LAYOUT_PRESENT_SRC, IMAGE_LAYOUT_UNDEFINED, PIPELINE_STAGE_BOTTOM_OF_PIPE,
    PIPELINE_STAGE_COLOR_ATTACHMENT_OUTPUT, PIPELINE_STAGE_FRAGMENT_SHADER, PIPELINE_STAGE_TOP_OF_PIPE,
    QUEUE_GRAPHICS, SHADER_STAGE_ALL, SHADER_STAGE_FRAGMENT,
};
use strale::physical_device::{MemoryProperties, PhysicalDevice, PhysicalDeviceType, QueueFamilyProperties};
use strale::pipeline::{shader_words, Pipeline, ShaderError};
use strale::renderer::{Renderer, TrianglesPipeline, TrianglesPushConstant};
use strale::swapchain::{AcquireOutcome, Extent2D, Image, Swapchain, SwapchainAcquireImageErr, SwapchainDesc};

fn buffer(raw: u64) -> Buffer {
    Buffer { raw, desc: BufferDesc { size: 256, usage: BUFFER_USAGE_STORAGE_BUFFER, memory_location: MemoryLocation::GpuOnly } }
}

fn renderer() -> Renderer {
    let set = BindlessDescriptorSet::new(900, 901, BINDLESS_BINDING_COUNT);
    let pipeline = TrianglesPipeline::create_pipeline(Pipeline::new(800, 801, vec![901]), 4);
    Renderer::new(set, pipeline)
}

fn device() -> Device {
    let pd = PhysicalDevice::new(
        1,
        PhysicalDeviceType::DiscreteGpu,
        vec![QueueFamilyProperties { queue_flags: QUEUE_GRAPHICS, queue_count: 1 }],
        MemoryProperties { memory_types: vec![] },
    );
    let features = DeviceFeatures {
        dynamic_rendering: true,
        scalar_block_layout: false,
        descriptor_indexing: false,
        imageless_framebuffer: false,
        shader_float16: false,
        shader_int8: false,
        buffer_device_address: false,
        vulkan_memory_model: false,
    };
    let supported = vec!["VK_KHR_swapchain".to_string(), "VK_KHR_dynamic_rendering".to_string()];
    let info = DeviceCreateInfo::negotiate(&pd, &supported, &features).unwrap();
    Device::create(
        pd,
        info,
        5,
        CommandBuffer { raw: 10, submit_done_fence: 11 },
        CommandBuffer { raw: 20, submit_done_fence: 21 },
        CommandBuffer { raw: 30, submit_done_fence: 31 },
    )
}

fn swapchain(count: u64, extent: Extent2D) -> Swapchain {
    Swapchain::new(
        70,
        SwapchainDesc { dims: extent },
        (0..count).map(|i| Image { raw: 100 + i, view: 200 + i }).collect(),
        (0..count).map(|i| 300 + i).collect(),
        (0..count).map(|i| 400 + i).collect(),
    )
}

fn bound_buffers(commands: &[Command]) -> Vec<Option<u64>> {
    commands
        .iter()
        .find_map(|c| match c {
            Command::BindDescriptorSet { buffers, .. } => Some(buffers.clone()),
            _ => None,
        })
        .unwrap()
}

#[test]
fn barrier_into_color_attachment() {
    let b = image_transition(5, 0, AccessKind::Nothing, AccessKind::ColorAttachmentWrite);
    assert_eq!(b.image, 5);
    assert_eq!(
        b.masks,
        BarrierMasks {
            src_stage: PIPELINE_STAGE_TOP_OF_PIPE,
            dst_stage: PIPELINE_STAGE_COLOR_ATTACHMENT_OUTPUT,
            src_access: 0,
            dst_access: ACCESS_COLOR_ATTACHMENT_WRITE,
            old_layout: IMAGE_LAYOUT_UNDEFINED,
            new_layout: IMAGE_LAYOUT_COLOR_ATTACHMENT_OPTIMAL,
        }
    );
}

#[test]
fn barrier_into_present() {
    let b = image_transition(5, 2, AccessKind::ColorAttachmentWrite, AccessKind::Present);
    assert_eq!(b.queue_family, 2);
    assert_eq!(
        b.masks,
        BarrierMasks {
            src_stage: PIPELINE_STAGE_COLOR_ATTACHMENT_OUTPUT,
            dst_stage: PIPELINE_STAGE_BOTTOM_OF_PIPE,
            src_access: ACCESS_COLOR_ATTACHMENT_WRITE,
            dst_access: 0,
            old_layout: IMAGE_LAYOUT_COLOR_ATTACHMENT_OPTIMAL,
            new_layout: IMAGE_LAYOUT_PRESENT_SRC,
        }
    );
}

#[test]
fn viewport_is_flipped() {
    let v = flipped_viewport(Extent2D { width: 1920, height: 1080 });
    assert_eq!(v, Viewport { x: 0, y: 1080, width: 1920, height: -1080 });
    assert_eq!(full_rect(Extent2D { width: 4, height: 3 }), Rect2D { x: 0, y: 0, extent: Extent2D { width: 4, height: 3 } });
}

#[test]
fn bindless_layout_and_pool() {
    let layout = create_bindless_descriptor_set_layout(2);
    assert!(layout.update_after_bind_pool);
    assert_eq!(layout.bindings.len(), 2);
    for (i, b) in layout.bindings.iter().enumerate() {
        assert_eq!(b.binding, i as u32);
        assert_eq!(b.descriptor_count, 1);
        assert_eq!(b.stage_flags, SHADER_STAGE_ALL);
        assert!(b.partially_bound);
    }
    let desc = create_bindless_descriptor_set(3);
    assert_eq!(desc.layout.bindings.len(), 3);
    assert_eq!(desc.pool.storage_buffer_count, 3);
    assert_eq!(desc.pool.max_sets, 1);
    assert!(desc.pool.update_after_bind);
}

#[test]
fn descriptor_write_targets_one_binding() {
    let mut set = BindlessDescriptorSet::new(9, 8, 2);
    assert_eq!(set.buffers, vec![None, None]);
    let w = set.write_descriptor_buffer(1, &buffer(44));
    assert_eq!(w, DescriptorWrite { set: 9, binding: 1, buffer: 44 });
    assert_eq!(set.buffers, vec![None, Some(44)]);
}

#[test]
fn pipeline_binds_sets_in_registration_order() {
    let mut p = Pipeline::new(1, 2, vec![]);
    p.add_descriptor_set(0, 900);
    p.add_descriptor_set(1, 950);
    let sets = vec![BindlessDescriptorSet::new(900, 0, 1)];
    let mut commands = Vec::new();
    p.bind_pipeline(&sets, &mut commands);
    assert_eq!(
        commands,
        vec![
            Command::BindPipeline { pipeline: 1 },
            Command::BindDescriptorSet { layout: 2, set_index: 0, set: 900, buffers: vec![None] },
            Command::BindDescriptorSet { layout: 2, set_index: 1, set: 950, buffers: vec![] },
        ]
    );
}

#[test]
fn push_constants_are_little_endian() {
    let c = TrianglesPushConstant { time_bits: 1.5f32.to_bits(), num_spheres: 4 };
    assert_eq!(c.to_bytes(), vec![0x00, 0x00, 0xC0, 0x3F, 4, 0, 0, 0]);
    let c = TrianglesPushConstant { time_bits: 0x0102_0304, num_spheres: 0xA0B0_C0D0 };
    assert_eq!(c.to_bytes(), vec![4, 3, 2, 1, 0xD0, 0xC0, 0xB0, 0xA0]);
}

#[test]
fn frame_records_the_full_sequence() {
    let r = renderer();
    let mut sc = swapchain(3, Extent2D { width: 1920, height: 1080 });
    let img = sc.acquire_next_image(AcquireOutcome::Acquired(0)).ok().unwrap();
    let extent = Extent2D { width: 1920, height: 1080 };
    let commands = r.record_commands(&img, extent, 0, 7);
    let expected = vec![
        Command::PipelineBarrier(image_transition(100, 0, AccessKind::Nothing, AccessKind::ColorAttachmentWrite)),
        Command::BeginRendering { view: 200, render_area: full_rect(extent) },
        Command::SetViewport(Viewport { x: 0, y: 1080, width: 1920, height: -1080 }),
        Command::SetScissor(full_rect(extent)),
        Command::BindPipeline { pipeline: 800 },
        Command::BindDescriptorSet { layout: 801, set_index: 0, set: 900, buffers: vec![None, None] },
        Command::BindPipeline { pipeline: 800 },
        Command::PushConstants { layout: 801, stages: SHADER_STAGE_FRAGMENT, offset: 0, bytes: vec![7, 0, 0, 0, 4, 0, 0, 0] },
        Command::Draw { vertex_count: 3, instance_count: 1, first_vertex: 0, first_instance: 0 },
        Command::EndRendering,
        Command::PipelineBarrier(image_transition(100, 0, AccessKind::ColorAttachmentWrite, AccessKind::Present)),
    ];
    assert_eq!(commands, expected);
}

#[test]
fn rewritten_binding_reaches_only_later_recordings() {
    let mut r = renderer();
    assert!(r.write_descriptor_set_buffer(900, 0, &buffer(1)).is_some());
    assert!(r.write_descriptor_set_buffer(900, 1, &buffer(2)).is_some());
    let mut sc = swapchain(3, Extent2D { width: 8, height: 8 });
    let img = sc.acquire_next_image(AcquireOutcome::Acquired(0)).ok().unwrap();
    let before = r.record_commands(&img, Extent2D { width: 8, height: 8 }, 0, 0);
    let w = r.write_descriptor_set_buffer(900, 1, &buffer(3));
    assert_eq!(w, Some(DescriptorWrite { set: 900, binding: 1, buffer: 3 }));
    let after = r.record_commands(&img, Extent2D { width: 8, height: 8 }, 0, 0);
    assert_eq!(bound_buffers(&before), vec![Some(1), Some(2)]);
    assert_eq!(bound_buffers(&after), vec![Some(1), Some(3)]);
}

#[test]
fn descriptor_write_to_unknown_set_or_binding_changes_nothing() {
    let mut r = renderer();
    assert_eq!(r.write_descriptor_set_buffer(12345, 0, &buffer(1)), None);
    assert_eq!(r.write_descriptor_set_buffer(900, 2, &buffer(1)), None);
    assert_eq!(r.descriptor_sets[0].buffers, vec![None, None]);
}

#[test]
fn draw_plans_submit_and_present() {
    let r = renderer();
    let mut d = device();
    let mut sc = swapchain(3, Extent2D { width: 640, height: 480 });
    let frame = d.begin_frame().unwrap();
    let plan = r.draw(&mut d, &mut sc, frame, AcquireOutcome::Acquired(0), 0).ok().unwrap();
    assert_eq!(plan.command_buffer, CommandBuffer { raw: 10, submit_done_fence: 11 });
    assert_eq!(plan.submit.command_buffer, 10);
    assert_eq!(plan.submit.wait_semaphore, 300);
    assert_eq!(plan.submit.wait_stage, PIPELINE_STAGE_FRAGMENT_SHADER);
    assert_eq!(plan.submit.signal_semaphore, 400);
    assert_eq!(plan.submit.fence, 11);
    assert_eq!(plan.present.image_index, 0);
    assert_eq!(plan.present.wait_semaphore, 400);
    assert_eq!(plan.present.swapchain, 70);
    assert_eq!(plan.commands.len(), 11);
    assert!(!d.frame_claimed());
    assert_eq!(d.current_command_buffer().raw, 20);
}

#[test]
fn draw_without_image_asks_for_rebuild_and_releases_frame() {
    let r = renderer();
    let mut d = device();
    let mut sc = swapchain(3, Extent2D { width: 640, height: 480 });
    let frame = d.begin_frame().unwrap();
    let out = r.draw(&mut d, &mut sc, frame, AcquireOutcome::OutOfDate, 0);
    assert!(matches!(out, Err(SwapchainAcquireImageErr::RecreateFramebuffer)));
    assert!(!d.frame_claimed());
    assert_eq!(sc.next_semaphore, 0);
    assert!(d.begin_frame().is_ok());
}

#[test]
fn ten_frames_over_a_three_image_swapchain() {
    let r = renderer();
    let mut d = device();
    let mut sc = swapchain(3, Extent2D { width: 1920, height: 1080 });
    let mut fence_waits = Vec::new();
    let mut submits = 0;
    let mut presents = Vec::new();
    for _ in 0..10 {
        let frame = d.begin_frame().expect("frame slot is free");
        fence_waits.push(frame.main_command_buffer.submit_done_fence);
        let next = sc.next_semaphore as u32;
        let plan = r.draw(&mut d, &mut sc, frame, AcquireOutcome::Acquired(next), 0).ok().expect("no rebuild");
        assert_eq!(plan.submit.fence, fence_waits[fence_waits.len() - 1]);
        submits += 1;
        presents.push(plan.present.image_index);
    }
    assert_eq!(fence_waits.len(), 10);
    assert_eq!(submits, 10);
    assert_eq!(presents, vec![0, 1, 2, 0, 1, 2, 0, 1, 2, 0]);
    assert_eq!(fence_waits, vec![11, 21, 11, 21, 11, 21, 11, 21, 11, 21]);
}

#[test]
fn pipeline_state_follows_swapchain_extent() {
    let d = TrianglesPipeline::pipeline_desc(SwapchainDesc { dims: Extent2D { width: 800, height: 600 } });
    assert_eq!(d.viewport, Viewport { x: 0, y: 600, width: 800, height: -600 });
    assert_eq!(d.scissor, Rect2D { x: 0, y: 0, extent: Extent2D { width: 800, height: 600 } });
    assert_eq!(d.push_constant_stages, SHADER_STAGE_FRAGMENT);
    assert_eq!(d.push_constant_size, 8);
}

#[test]
fn shader_words_little_endian() {
    let bytes = [0x03, 0x02, 0x23, 0x07, 0x01, 0x00, 0x01, 0x00];
    assert_eq!(shader_words(&bytes), Ok(vec![0x0723_0203, 0x0001_0001]));
}

#[test]
fn shader_words_big_endian_are_swapped() {
    let bytes = [0x07, 0x23, 0x02, 0x03, 0x00, 0x01, 0x00, 0x02];
    assert_eq!(shader_words(&bytes), Ok(vec![0x0723_0203, 0x0001_0002]));
}

#[test]
fn shader_words_reject_bad_input() {
    assert_eq!(shader_words(&[]), Err(ShaderError::InvalidSpirv));
    assert_eq!(shader_words(&[0x03, 0x02, 0x23]), Err(ShaderError::InvalidSpirv));
    assert_eq!(shader_words(&[0x03, 0x02, 0x23, 0x08]), Err(ShaderError::InvalidSpirv));
    assert_eq!(shader_words(&[0x03, 0x02, 0x23, 0x07, 0x00]), Err(ShaderError::InvalidSpirv));
}
