//! The triangle pipeline and the per-frame sequence: claim a frame, take the
//! acquired image, record barriers and the draw, build the submission and
//! the present request, rotate the frame ring.
use vstd::prelude::*;
use crate::bindless_descriptor_set::{BindlessDescriptorSet, DescriptorWrite};
use crate::buffer::Buffer;
use crate::commands::{
    commands_view, flipped_viewport, full_rect, image_transition, spec_flipped_viewport,
    spec_full_rect, spec_image_transition, AccessKind, Command, CommandSpec, Rect2D, Viewport,
};
use crate::device::{spec_finish, spec_submit, CommandBuffer, Device, FrameToken};
use crate::flags::{PIPELINE_STAGE_FRAGMENT_SHADER, SHADER_STAGE_FRAGMENT};
use crate::pipeline::{lookup_buffers, spec_bind_commands, Pipeline};
use crate::swapchain::{
    rotate, AcquireOutcome, Extent2D, PresentInfo, Swapchain, SwapchainAcquireImageErr,
    SwapchainDesc, SwapchainImage,
};

verus! {

/// The little-endian bytes of `x`.
pub open spec fn le_bytes(x: u32) -> Seq<u8> {
    seq![
        (x % 256) as u8,
        (x / 256 % 256) as u8,
        (x / 65536 % 256) as u8,
        (x / 16777216) as u8,
    ]
}

/// The size in bytes of the triangle pipeline's push constants.
pub const TRIANGLES_PUSH_CONSTANT_SIZE: u32 = 8;

/// The fragment-stage push constants: the elapsed time in seconds as the
/// bits of a 32-bit float, then the number of spheres.
#[derive(Clone, Copy, Debug, PartialEq, Eq, Structural)]
pub struct TrianglesPushConstant {
    pub time_bits: u32,
    pub num_spheres: u32,
}

impl TrianglesPushConstant {
    pub open spec fn spec_bytes(&self) -> Seq<u8> {
        le_bytes(self.time_bits) + le_bytes(self.num_spheres)
    }

    /// The eight bytes the shader reads: each field little-endian, time first.
    pub fn to_bytes(&self) -> (r: Vec<u8>)
        ensures
            r@ == self.spec_bytes(),
            r@.len() == TRIANGLES_PUSH_CONSTANT_SIZE,
    {
        let t = self.time_bits;
        let n = self.num_spheres;
        let r = vec![
            (t % 256) as u8,
            (t / 256 % 256) as u8,
            (t / 65536 % 256) as u8,
            (t / 16777216) as u8,
            (n % 256) as u8,
            (n / 256 % 256) as u8,
            (n / 65536 % 256) as u8,
            (n / 16777216) as u8,
        ];
        assert(r@ =~= self.spec_bytes());
        r
    }
}

/// The fixed state of the triangle pipeline that depends on the swapchain:
/// the flipped viewport and full scissor, and the push-constant range.
#[derive(Clone, Copy, Debug, PartialEq, Eq, Structural)]
pub struct GraphicsPipelineDesc {
    pub viewport: Viewport,
    pub scissor: Rect2D,
    pub push_constant_stages: u32,
    pub push_constant_size: u32,
}

/// The pipeline that draws one full-screen triangle over the spheres.
#[derive(Clone, Debug)]
pub struct TrianglesPipeline {
    pub inner: Pipeline,
    pub num_spheres: u32,
}

/// The commands `TrianglesPipeline::render` records.
pub open spec fn spec_render_commands(p: TrianglesPipeline, time_bits: u32) -> Seq<CommandSpec> {
    seq![
        CommandSpec::BindPipeline { pipeline: p.inner.raw },
        CommandSpec::PushConstants {
            layout: p.inner.layout,
            stages: SHADER_STAGE_FRAGMENT,
            offset: 0,
            bytes: (TrianglesPushConstant { time_bits, num_spheres: p.num_spheres }).spec_bytes(),
        },
        CommandSpec::Draw { vertex_count: 3, instance_count: 1, first_vertex: 0, first_instance: 0 },
    ]
}

impl TrianglesPipeline {
    /// The state to create the pipeline with for a swapchain of `desc`.
    pub fn pipeline_desc(desc: SwapchainDesc) -> (r: GraphicsPipelineDesc)
        ensures
            r.viewport == spec_flipped_viewport(desc.dims),
            r.scissor == spec_full_rect(desc.dims),
            r.push_constant_stages == SHADER_STAGE_FRAGMENT,
            r.push_constant_size == TRIANGLES_PUSH_CONSTANT_SIZE,
    {
        GraphicsPipelineDesc {
            viewport: flipped_viewport(desc.dims),
            scissor: full_rect(desc.dims),
            push_constant_stages: SHADER_STAGE_FRAGMENT,
            push_constant_size: TRIANGLES_PUSH_CONSTANT_SIZE,
        }
    }

    /// Wraps the created pipeline, for `num_spheres` spheres.
    pub fn create_pipeline(inner: Pipeline, num_spheres: usize) -> (r: TrianglesPipeline)
        requires
            num_spheres <= u32::MAX,
        ensures
            r.inner == inner,
            r.num_spheres == num_spheres,
    {
        TrianglesPipeline { inner, num_spheres: num_spheres as u32 }
    }

    /// Binds the pipeline, pushes the time and sphere count to the fragment
    /// stage, and draws three vertices.
    pub fn render(&self, time_bits: u32, commands: &mut Vec<Command>)
        ensures
            commands_view(final(commands)@) == commands_view(old(commands)@) + spec_render_commands(
                *self,
                time_bits,
            ),
    {
        let ghost start = commands@;
        let constants = TrianglesPushConstant { time_bits, num_spheres: self.num_spheres };
        let c0 = Command::BindPipeline { pipeline: self.inner.raw };
        let c1 = Command::PushConstants {
            layout: self.inner.layout,
            stages: SHADER_STAGE_FRAGMENT,
            offset: 0,
            bytes: constants.to_bytes(),
        };
        let c2 = Command::Draw { vertex_count: 3, instance_count: 1, first_vertex: 0, first_instance: 0 };
        commands.push(c0);
        commands.push(c1);
        commands.push(c2);
        assert(commands@ == start.push(c0).push(c1).push(c2));
        assert(commands_view(commands@) =~= commands_view(start) + spec_render_commands(*self, time_bits));
    }
}

/// What to submit: the frame's command buffer, waiting on the acquire
/// semaphore at `wait_stage`, signalling the render-finished semaphore and
/// the frame's fence.
#[derive(Clone, Copy, Debug, PartialEq, Eq, Structural)]
pub struct SubmitInfo {
    pub command_buffer: u64,
    pub wait_semaphore: u64,
    pub wait_stage: u32,
    pub signal_semaphore: u64,
    pub fence: u64,
}

/// One frame's work for the driver: record `commands` into the command
/// buffer, reset its fence, submit, present.
#[derive(Clone, Debug)]
pub struct FramePlan {
    pub command_buffer: CommandBuffer,
    pub commands: Vec<Command>,
    pub submit: SubmitInfo,
    pub present: PresentInfo,
}

/// The renderer's pipeline and the descriptor sets it may bind.
#[derive(Clone, Debug)]
pub struct Renderer {
    pub triangles_pipeline: TrianglesPipeline,
    pub descriptor_sets: Vec<BindlessDescriptorSet>,
}

/// The commands of one frame into `image` of the given extent.
pub open spec fn spec_frame_commands(
    renderer: Renderer,
    image: SwapchainImage,
    extent: Extent2D,
    queue_family: u32,
    time_bits: u32,
) -> Seq<CommandSpec> {
    seq![
        CommandSpec::PipelineBarrier(
            spec_image_transition(
                image.image.raw,
                queue_family,
                AccessKind::Nothing,
                AccessKind::ColorAttachmentWrite,
            ),
        ),
        CommandSpec::BeginRendering { view: image.image.view, render_area: spec_full_rect(extent) },
        CommandSpec::SetViewport(spec_flipped_viewport(extent)),
        CommandSpec::SetScissor(spec_full_rect(extent)),
    ] + spec_bind_commands(renderer.triangles_pipeline.inner, renderer.descriptor_sets@)
        + spec_render_commands(renderer.triangles_pipeline, time_bits) + seq![
        CommandSpec::EndRendering,
        CommandSpec::PipelineBarrier(
            spec_image_transition(
                image.image.raw,
                queue_family,
                AccessKind::ColorAttachmentWrite,
                AccessKind::Present,
            ),
        ),
    ]
}

/// The position of the first set of `sets` with handle `set`.
pub open spec fn set_position(sets: Seq<BindlessDescriptorSet>, set: u64) -> Option<int>
    decreases sets.len(),
{
    if sets.len() == 0 {
        None
    } else if sets[0].raw == set {
        Some(0)
    } else {
        match set_position(sets.drop_first(), set) {
            Some(i) => Some(i + 1),
            None => None,
        }
    }
}

/// `after` is `before` with binding `binding` of the set at `k` holding `buffer`.
pub open spec fn rebinds(
    before: Seq<BindlessDescriptorSet>,
    after: Seq<BindlessDescriptorSet>,
    k: int,
    binding: u32,
    buffer: u64,
) -> bool {
    &&& after.len() == before.len()
    &&& 0 <= k < before.len()
    &&& binding < before[k].buffers@.len()
    &&& forall|j: int| 0 <= j < before.len() && j != k ==> #[trigger] after[j] == before[j]
    &&& after[k].raw == before[k].raw
    &&& after[k].layout == before[k].layout
    &&& after[k].buffers@ == before[k].buffers@.update(binding as int, Some(buffer))
}

impl Renderer {
    /// The renderer over `descriptor_set`, which the pipeline binds at set
    /// index zero after any sets it already had.
    pub fn new(descriptor_set: BindlessDescriptorSet, triangles_pipeline: TrianglesPipeline) -> (r:
        Renderer)
        ensures
            r.descriptor_sets@ == seq![descriptor_set],
            r.triangles_pipeline.num_spheres == triangles_pipeline.num_spheres,
            r.triangles_pipeline.inner.raw == triangles_pipeline.inner.raw,
            r.triangles_pipeline.inner.layout == triangles_pipeline.inner.layout,
            r.triangles_pipeline.inner.descriptor_set_layouts@
                == triangles_pipeline.inner.descriptor_set_layouts@,
            r.triangles_pipeline.inner.bindings@ == triangles_pipeline.inner.bindings@.push(
                (0u32, descriptor_set.raw),
            ),
    {
        let mut triangles_pipeline = triangles_pipeline;
        triangles_pipeline.inner.add_descriptor_set(0, descriptor_set.raw);
        let mut descriptor_sets: Vec<BindlessDescriptorSet> = Vec::new();
        descriptor_sets.push(descriptor_set);
        Renderer { triangles_pipeline, descriptor_sets }
    }

    /// Binds `buffer` at `dst_binding` of the first set with handle `set`,
    /// and returns the write for the driver. Nothing changes, and `None`
    /// comes back, when there is no such set or binding.
    pub fn write_descriptor_set_buffer(&mut self, set: u64, dst_binding: u32, buffer: &Buffer) -> (r:
        Option<DescriptorWrite>)
        ensures
            final(self).triangles_pipeline == old(self).triangles_pipeline,
            match set_position(old(self).descriptor_sets@, set) {
                Some(k) if dst_binding < old(self).descriptor_sets@[k].buffers@.len() => {
                    &&& r == Some(DescriptorWrite { set, binding: dst_binding, buffer: buffer.raw })
                    &&& rebinds(
                        old(self).descriptor_sets@,
                        final(self).descriptor_sets@,
                        k,
                        dst_binding,
                        buffer.raw,
                    )
                },
                _ => r is None && final(self).descriptor_sets@ == old(self).descriptor_sets@,
            },
    {
        let ghost sets = self.descriptor_sets@;
        let mut k: usize = 0;
        assert(sets.subrange(0, sets.len() as int) =~= sets);
        while k < self.descriptor_sets.len()
            invariant
                k <= sets.len(),
                sets == old(self).descriptor_sets@,
                self.descriptor_sets@ == sets,
                self.triangles_pipeline == old(self).triangles_pipeline,
                set_position(sets, set) == match set_position(sets.subrange(k as int, sets.len() as int), set) {
                    Some(i) => Some(i + k),
                    None => None::<int>,
                },
            decreases sets.len() - k,
        {
            assert(sets.subrange(k as int, sets.len() as int).drop_first() =~= sets.subrange(
                k as int + 1,
                sets.len() as int,
            ));
            if self.descriptor_sets[k].raw == set {
                assert(sets.subrange(k as int, sets.len() as int)[0] == sets[k as int]);
                assert(set_position(sets, set) == Some(k as int));
                if (dst_binding as usize) < self.descriptor_sets[k].buffers.len() {
                    let mut target = self.descriptor_sets.remove(k);
                    let write = target.write_descriptor_buffer(dst_binding, buffer);
                    self.descriptor_sets.insert(k, target);
                    assert forall|j: int| 0 <= j < sets.len() && j != k implies #[trigger] self.descriptor_sets@[j]
                        == sets[j] by {
                        if j < k {
                        } else {
                        }
                    }
                    return Some(write);
                }
                return None;
            }
            k += 1;
        }
        assert(sets.subrange(k as int, sets.len() as int) =~= Seq::<BindlessDescriptorSet>::empty());
        None
    }

    /// Records one frame into `image`: the transition to color-attachment
    /// write, dynamic rendering over the whole extent with the flipped
    /// viewport, the pipeline with its sets, the draw, and the transition to
    /// present.
    pub fn record_commands(
        &self,
        image: &SwapchainImage,
        extent: Extent2D,
        queue_family: u32,
        time_bits: u32,
    ) -> (r: Vec<Command>)
        ensures
            commands_view(r@) == spec_frame_commands(*self, *image, extent, queue_family, time_bits),
    {
        let mut commands: Vec<Command> = Vec::new();
        let c0 = Command::PipelineBarrier(
            image_transition(
                image.image.raw,
                queue_family,
                AccessKind::Nothing,
                AccessKind::ColorAttachmentWrite,
            ),
        );
        let c1 = Command::BeginRendering { view: image.image.view, render_area: full_rect(extent) };
        let c2 = Command::SetViewport(flipped_viewport(extent));
        let c3 = Command::SetScissor(full_rect(extent));
        commands.push(c0);
        commands.push(c1);
        commands.push(c2);
        commands.push(c3);
        let ghost head = commands@;
        assert(commands_view(head) =~= seq![c0@, c1@, c2@, c3@]);
        self.triangles_pipeline.inner.bind_pipeline(&self.descriptor_sets, &mut commands);
        self.triangles_pipeline.render(time_bits, &mut commands);
        let ghost body = commands@;
        let c4 = Command::EndRendering;
        let c5 = Command::PipelineBarrier(
            image_transition(
                image.image.raw,
                queue_family,
                AccessKind::ColorAttachmentWrite,
                AccessKind::Present,
            ),
        );
        commands.push(c4);
        commands.push(c5);
        assert(commands@ == body.push(c4).push(c5));
        assert(commands_view(commands@) =~= commands_view(body) + seq![c4@, c5@]);
        assert(commands_view(commands@) =~= spec_frame_commands(
            *self,
            *image,
            extent,
            queue_family,
            time_bits,
        ));
        commands
    }

    /// One frame, from the claimed `frame` and the driver's answer to an
    /// acquire made with the swapchain's next acquire semaphore after the
    /// frame's fence was waited on. With an image, the plan records the frame
    /// into the frame's command buffer, submits it waiting on the image's
    /// acquire semaphore at the fragment stage and signalling its
    /// render-finished semaphore and the frame's fence, and presents the
    /// image. Without one, a rebuild is asked for and nothing is submitted.
    /// Either way the frame is released and the ring rotates.
    pub fn draw(
        &self,
        device: &mut Device,
        swapchain: &mut Swapchain,
        frame: FrameToken,
        acquired: AcquireOutcome,
        time_bits: u32,
    ) -> (r: Result<FramePlan, SwapchainAcquireImageErr>)
        requires
            old(device)@.claimed,
            frame.main_command_buffer == old(device)@.current.main_command_buffer,
            old(swapchain).wf(),
            acquired matches AcquireOutcome::Acquired(i) ==> i == old(swapchain).next_semaphore,
        ensures
            final(swapchain).wf(),
            final(swapchain).raw == old(swapchain).raw,
            final(swapchain).desc == old(swapchain).desc,
            final(swapchain).images@ == old(swapchain).images@,
            final(swapchain).acquire_semaphores@ == old(swapchain).acquire_semaphores@,
            final(swapchain).rendering_finished_semaphores@
                == old(swapchain).rendering_finished_semaphores@,
            final(device).keeps_configuration(old(device)),
            match acquired {
                AcquireOutcome::Acquired(_) => {
                    let n = old(swapchain).next_semaphore as int;
                    let cb = old(device)@.current.main_command_buffer;
                    let image = SwapchainImage {
                        image: old(swapchain).images@[n],
                        index: n as u32,
                        rendering_finished_semaphore: old(swapchain).rendering_finished_semaphores@[n],
                        acquire_semaphore: old(swapchain).acquire_semaphores@[n],
                    };
                    &&& r matches Ok(plan)
                    &&& plan.command_buffer == cb
                    &&& commands_view(plan.commands@) == spec_frame_commands(
                        *self,
                        image,
                        old(swapchain).desc.dims,
                        old(device).universal_queue.family.index,
                        time_bits,
                    )
                    &&& plan.submit == SubmitInfo {
                        command_buffer: cb.raw,
                        wait_semaphore: image.acquire_semaphore,
                        wait_stage: PIPELINE_STAGE_FRAGMENT_SHADER,
                        signal_semaphore: image.rendering_finished_semaphore,
                        fence: cb.submit_done_fence,
                    }
                    &&& plan.present == PresentInfo {
                        swapchain: old(swapchain).raw,
                        image_index: n as u32,
                        wait_semaphore: image.rendering_finished_semaphore,
                    }
                    &&& final(swapchain).next_semaphore == rotate(
                        n as nat,
                        old(swapchain).image_count(),
                    )
                    &&& final(device)@ == spec_finish(spec_submit(old(device)@))
                },
                _ => {
                    &&& r == Err::<FramePlan, _>(SwapchainAcquireImageErr::RecreateFramebuffer)
                    &&& final(swapchain).next_semaphore == old(swapchain).next_semaphore
                    &&& final(device)@ == spec_finish(old(device)@)
                },
            },
    {
        let cb = frame.main_command_buffer;
        match swapchain.acquire_next_image(acquired) {
            Ok(image) => {
                let commands = self.record_commands(
                    &image,
                    swapchain.desc.dims,
                    device.universal_queue.family.index,
                    time_bits,
                );
                let submit = SubmitInfo {
                    command_buffer: cb.raw,
                    wait_semaphore: image.acquire_semaphore,
                    wait_stage: PIPELINE_STAGE_FRAGMENT_SHADER,
                    signal_semaphore: image.rendering_finished_semaphore,
                    fence: cb.submit_done_fence,
                };
                device.mark_submitted(&frame);
                let present = swapchain.present_image(image);
                device.finish_frame(frame);
                Ok(FramePlan { command_buffer: cb, commands, submit, present })
            },
            Err(e) => {
                device.finish_frame(frame);
                Err(e)
            },
        }
    }
}

/// The first set with handle `set` sits at its position, and its buffers are
/// the ones looked up.
proof fn lemma_lookup_at(sets: Seq<BindlessDescriptorSet>, set: u64)
    ensures
        set_position(sets, set) matches Some(k) ==> {
            &&& 0 <= k < sets.len()
            &&& sets[k].raw == set
            &&& lookup_buffers(sets, set) == sets[k].buffers@
        },
    decreases sets.len(),
{
    if sets.len() > 0 && sets[0].raw != set {
        lemma_lookup_at(sets.drop_first(), set);
    }
}

/// Sets with the same handles, position by position, find a handle at the
/// same position.
proof fn lemma_same_handles_same_position(
    a: Seq<BindlessDescriptorSet>,
    b: Seq<BindlessDescriptorSet>,
    set: u64,
)
    requires
        a.len() == b.len(),
        forall|j: int| 0 <= j < a.len() ==> (#[trigger] a[j]).raw == b[j].raw,
    ensures
        set_position(a, set) == set_position(b, set),
    decreases a.len(),
{
    if a.len() > 0 {
        assert forall|j: int| 0 <= j < a.drop_first().len() implies (#[trigger] a.drop_first()[j]).raw
            == b.drop_first()[j].raw by {
            assert(a[j + 1].raw == b[j + 1].raw);
        }
        lemma_same_handles_same_position(a.drop_first(), b.drop_first(), set);
    }
}

/// A buffer written into a binding of a bound set reaches the frames recorded
/// after the write and no frame recorded before it: in the frame recorded
/// after, the command that binds the set carries the new buffer at that
/// binding and the old buffers elsewhere; in the frame recorded before, it
/// carries the buffers the set held then.
pub proof fn lemma_rewrite_reaches_later_recordings(
    before: Renderer,
    after: Renderer,
    set: u64,
    binding: u32,
    buffer: u64,
    image: SwapchainImage,
    extent: Extent2D,
    queue_family: u32,
    time_bits: u32,
    i: int,
)
    requires
        after.triangles_pipeline == before.triangles_pipeline,
        set_position(before.descriptor_sets@, set) matches Some(k) && rebinds(
            before.descriptor_sets@,
            after.descriptor_sets@,
            k,
            binding,
            buffer,
        ),
        0 <= i < before.triangles_pipeline.inner.bindings@.len(),
        before.triangles_pipeline.inner.bindings@[i].1 == set,
    ensures
        ({
            let k = set_position(before.descriptor_sets@, set)->0;
            let old_buffers = before.descriptor_sets@[k].buffers@;
            let recorded_before = spec_frame_commands(before, image, extent, queue_family, time_bits);
            let recorded_after = spec_frame_commands(after, image, extent, queue_family, time_bits);
            &&& recorded_before[5 + i] matches CommandSpec::BindDescriptorSet { set: s, buffers, .. }
                && s == set && buffers == old_buffers
            &&& recorded_after[5 + i] matches CommandSpec::BindDescriptorSet { set: s, buffers, .. }
                && s == set && buffers == old_buffers.update(binding as int, Some(buffer))
                && buffers[binding as int] == Some(buffer)
        }),
{
    let k = set_position(before.descriptor_sets@, set)->0;
    let sa = after.descriptor_sets@;
    let sb = before.descriptor_sets@;
    assert forall|j: int| 0 <= j < sb.len() implies (#[trigger] sb[j]).raw == sa[j].raw by {
        if j != k {
            assert(sa[j] == sb[j]);
        }
    }
    lemma_same_handles_same_position(sb, sa, set);
    lemma_lookup_at(sb, set);
    lemma_lookup_at(sa, set);
}

} // verus!
