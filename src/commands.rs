//! A record-only command layer: the commands a frame records, as values,
//! with the image barriers that vk-sync derives from access types.
use vstd::prelude::*;
use crate::flags::{
    ACCESS_COLOR_ATTACHMENT_WRITE, IMAGE_LAYOUT_COLOR_ATTACHMENT_OPTIMAL, IMAGE_LAYOUT_PRESENT_SRC,
    IMAGE_LAYOUT_UNDEFINED, PIPELINE_STAGE_BOTTOM_OF_PIPE, PIPELINE_STAGE_COLOR_ATTACHMENT_OUTPUT,
    PIPELINE_STAGE_TOP_OF_PIPE,
};
use crate::swapchain::Extent2D;
use vk_sync_fork::AccessType as Access;

verus! {

/// How an image is used on one side of a barrier.
#[derive(Clone, Copy, Debug, PartialEq, Eq, Structural)]
pub enum AccessKind {
    /// No access, contents undefined.
    Nothing,
    /// Written as a color attachment.
    ColorAttachmentWrite,
    /// Read by the presentation engine.
    Present,
}

/// Stages, access masks and layouts of one image memory barrier.
#[derive(Clone, Copy, Debug, PartialEq, Eq, Structural)]
pub struct BarrierMasks {
    pub src_stage: u32,
    pub dst_stage: u32,
    pub src_access: u32,
    pub dst_access: u32,
    pub old_layout: i32,
    pub new_layout: i32,
}

/// A barrier over every mip level and layer of a color image, with no queue
/// ownership transfer.
#[derive(Clone, Copy, Debug, PartialEq, Eq, Structural)]
pub struct ImageBarrier {
    pub image: u64,
    pub queue_family: u32,
    pub masks: BarrierMasks,
}

/// A viewport in pixels; the depth range is zero to zero.
#[derive(Clone, Copy, Debug, PartialEq, Eq, Structural)]
pub struct Viewport {
    pub x: i64,
    pub y: i64,
    pub width: i64,
    pub height: i64,
}

/// A rectangle in pixels.
#[derive(Clone, Copy, Debug, PartialEq, Eq, Structural)]
pub struct Rect2D {
    pub x: i32,
    pub y: i32,
    pub extent: Extent2D,
}

/// One recorded command. Rendering clears its single color attachment on
/// load and stores it on end.
#[derive(Clone, Debug, PartialEq, Eq)]
pub enum Command {
    PipelineBarrier(ImageBarrier),
    BeginRendering { view: u64, render_area: Rect2D },
    SetViewport(Viewport),
    SetScissor(Rect2D),
    BindPipeline { pipeline: u64 },
    /// Binds `set` at `set_index`; `buffers` are the storage buffers bound in
    /// the set, binding by binding, when the command was recorded.
    BindDescriptorSet { layout: u64, set_index: u32, set: u64, buffers: Vec<Option<u64>> },
    PushConstants { layout: u64, stages: u32, offset: u32, bytes: Vec<u8> },
    Draw { vertex_count: u32, instance_count: u32, first_vertex: u32, first_instance: u32 },
    EndRendering,
}

/// A command as a mathematical value.
pub enum CommandSpec {
    PipelineBarrier(ImageBarrier),
    BeginRendering { view: u64, render_area: Rect2D },
    SetViewport(Viewport),
    SetScissor(Rect2D),
    BindPipeline { pipeline: u64 },
    BindDescriptorSet { layout: u64, set_index: u32, set: u64, buffers: Seq<Option<u64>> },
    PushConstants { layout: u64, stages: u32, offset: u32, bytes: Seq<u8> },
    Draw { vertex_count: u32, instance_count: u32, first_vertex: u32, first_instance: u32 },
    EndRendering,
}

impl View for Command {
    type V = CommandSpec;

    open spec fn view(&self) -> CommandSpec {
        match self {
            Command::PipelineBarrier(b) => CommandSpec::PipelineBarrier(*b),
            Command::BeginRendering { view, render_area } => CommandSpec::BeginRendering {
                view: *view,
                render_area: *render_area,
            },
            Command::SetViewport(v) => CommandSpec::SetViewport(*v),
            Command::SetScissor(r) => CommandSpec::SetScissor(*r),
            Command::BindPipeline { pipeline } => CommandSpec::BindPipeline { pipeline: *pipeline },
            Command::BindDescriptorSet { layout, set_index, set, buffers } => {
                CommandSpec::BindDescriptorSet {
                    layout: *layout,
                    set_index: *set_index,
                    set: *set,
                    buffers: buffers@,
                }
            },
            Command::PushConstants { layout, stages, offset, bytes } => CommandSpec::PushConstants {
                layout: *layout,
                stages: *stages,
                offset: *offset,
                bytes: bytes@,
            },
            Command::Draw { vertex_count, instance_count, first_vertex, first_instance } => {
                CommandSpec::Draw {
                    vertex_count: *vertex_count,
                    instance_count: *instance_count,
                    first_vertex: *first_vertex,
                    first_instance: *first_instance,
                }
            },
            Command::EndRendering => CommandSpec::EndRendering,
        }
    }
}

/// The commands of a list as values.
pub open spec fn commands_view(commands: Seq<Command>) -> Seq<CommandSpec> {
    commands.map_values(|c: Command| c@)
}

/// Pipeline stages that an access runs in.
pub open spec fn access_stage(access: AccessKind) -> u32 {
    match access {
        AccessKind::ColorAttachmentWrite => PIPELINE_STAGE_COLOR_ATTACHMENT_OUTPUT,
        _ => 0,
    }
}

/// Memory access bits of an access.
pub open spec fn access_mask(access: AccessKind) -> u32 {
    match access {
        AccessKind::ColorAttachmentWrite => ACCESS_COLOR_ATTACHMENT_WRITE,
        _ => 0,
    }
}

/// The optimal image layout for an access.
pub open spec fn access_layout(access: AccessKind) -> i32 {
    match access {
        AccessKind::Nothing => IMAGE_LAYOUT_UNDEFINED,
        AccessKind::ColorAttachmentWrite => IMAGE_LAYOUT_COLOR_ATTACHMENT_OPTIMAL,
        AccessKind::Present => IMAGE_LAYOUT_PRESENT_SRC,
    }
}

/// The barrier from one access to the next on an image kept in optimal
/// layouts: earlier writes are made available, later accesses wait, and an
/// empty stage set becomes the top (source) or bottom (destination) of pipe.
pub open spec fn spec_barrier_masks(previous: AccessKind, next: AccessKind) -> BarrierMasks {
    BarrierMasks {
        src_stage: if access_stage(previous) == 0 {
            PIPELINE_STAGE_TOP_OF_PIPE
        } else {
            access_stage(previous)
        },
        dst_stage: if access_stage(next) == 0 {
            PIPELINE_STAGE_BOTTOM_OF_PIPE
        } else {
            access_stage(next)
        },
        src_access: if previous == AccessKind::ColorAttachmentWrite {
            access_mask(previous)
        } else {
            0
        },
        dst_access: access_mask(next),
        old_layout: access_layout(previous),
        new_layout: access_layout(next),
    }
}

/// Relies on vk_sync_fork::get_image_memory_barrier, for one previous and one
/// next access in optimal layouts without discarding: its stages, access
/// masks and layouts follow the library's access table (Nothing: no stage, no
/// access, undefined layout; ColorAttachmentWrite: color-attachment-output
/// stage, color-attachment-write access, a write, color-attachment-optimal
/// layout; Present: no stage, no access, present-source layout).
#[verifier::external_body]
fn barrier_masks(previous: AccessKind, next: AccessKind) -> (r: BarrierMasks)
    ensures
        r == spec_barrier_masks(previous, next),
{
    let kind = |k: AccessKind| match k {
        AccessKind::Nothing => Access::Nothing,
        AccessKind::ColorAttachmentWrite => Access::ColorAttachmentWrite,
        AccessKind::Present => Access::Present,
    };
    let barrier = vk_sync_fork::ImageBarrier {
        previous_accesses: &[kind(previous)], next_accesses: &[kind(next)], ..Default::default()
    };
    let (src, dst, b) = vk_sync_fork::get_image_memory_barrier(&barrier);
    BarrierMasks {
        src_stage: src.as_raw(), dst_stage: dst.as_raw(),
        src_access: b.src_access_mask.as_raw(), dst_access: b.dst_access_mask.as_raw(),
        old_layout: b.old_layout.as_raw(), new_layout: b.new_layout.as_raw(),
    }
}

pub open spec fn spec_image_transition(
    image: u64,
    queue_family: u32,
    previous: AccessKind,
    next: AccessKind,
) -> ImageBarrier {
    ImageBarrier { image, queue_family, masks: spec_barrier_masks(previous, next) }
}

/// The barrier that moves `image` from the `previous` access to the `next`
/// on one queue family.
pub fn image_transition(image: u64, queue_family: u32, previous: AccessKind, next: AccessKind) -> (r:
    ImageBarrier)
    ensures
        r == spec_image_transition(image, queue_family, previous, next),
{
    ImageBarrier { image, queue_family, masks: barrier_masks(previous, next) }
}

pub open spec fn spec_flipped_viewport(extent: Extent2D) -> Viewport {
    Viewport { x: 0, y: extent.height as i64, width: extent.width as i64, height: (-(extent.height as int)) as i64 }
}

/// The viewport over the whole extent with the Y axis flipped: the origin
/// moves to the bottom edge and the height is negated.
pub fn flipped_viewport(extent: Extent2D) -> (r: Viewport)
    ensures
        r == spec_flipped_viewport(extent),
{
    let height = extent.height as i64;
    Viewport { x: 0, y: height, width: extent.width as i64, height: -height }
}

pub open spec fn spec_full_rect(extent: Extent2D) -> Rect2D {
    Rect2D { x: 0, y: 0, extent }
}

/// The rectangle covering the whole extent.
pub fn full_rect(extent: Extent2D) -> (r: Rect2D)
    ensures
        r == spec_full_rect(extent),
{
    Rect2D { x: 0, y: 0, extent }
}

} // verus!
