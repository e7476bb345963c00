//! The native commands that recording produces, as values, and the rule that says
//! which streams of them the native API accepts.

use vstd::prelude::*;
use crate::geometry::{Rect2D, Viewport};
use crate::gpu::NativeHandle;
use crate::render_pass::{AttachmentView, RenderingAttachment};

verus! {

/// A barrier between all memory accesses of two sets of pipeline stages.
#[derive(Clone, Copy)]
pub struct MemoryBarrier {
    pub src_access_mask: ash::vk::AccessFlags,
    pub dst_access_mask: ash::vk::AccessFlags,
}

/// A buffer barrier as it is recorded: the buffer is named by its native handle.
#[derive(Clone, Copy)]
pub struct RecordedBufferBarrier {
    pub src_access_mask: ash::vk::AccessFlags,
    pub dst_access_mask: ash::vk::AccessFlags,
    pub src_queue_family_index: u32,
    pub dst_queue_family_index: u32,
    pub buffer: NativeHandle,
    pub offset: u64,
    pub size: u64,
}

/// An image barrier as it is recorded: the image is named by its native handle.
#[derive(Clone, Copy)]
pub struct RecordedImageBarrier {
    pub src_access_mask: ash::vk::AccessFlags,
    pub dst_access_mask: ash::vk::AccessFlags,
    pub old_layout: ash::vk::ImageLayout,
    pub new_layout: ash::vk::ImageLayout,
    pub src_queue_family_index: u32,
    pub dst_queue_family_index: u32,
    pub image: NativeHandle,
    pub subresource_range: ash::vk::ImageSubresourceRange,
}

/// One native recording call, with everything it is called with.
#[allow(inconsistent_fields)]
pub enum Command {
    BeginRendering {
        color_attachments: Vec<RenderingAttachment>,
        depth_attachment: Option<RenderingAttachment>,
        stencil_attachment: Option<RenderingAttachment>,
        render_area: Rect2D,
    },
    EndRendering,
    PipelineBarrier {
        src_stage_mask: ash::vk::PipelineStageFlags,
        dst_stage_mask: ash::vk::PipelineStageFlags,
        dependency_flags: ash::vk::DependencyFlags,
        memory_barriers: Vec<MemoryBarrier>,
        buffer_memory_barriers: Vec<RecordedBufferBarrier>,
        image_memory_barriers: Vec<RecordedImageBarrier>,
    },
    BindDescriptorSets {
        bind_point: ash::vk::PipelineBindPoint,
        pipeline_layout: NativeHandle,
        first_index: u32,
        descriptor_sets: Vec<NativeHandle>,
    },
    /// Binds a pipeline at the graphics bind point.
    BindPipeline { pipeline: NativeHandle },
    SetViewport { viewport: Viewport },
    SetScissor { scissor: Rect2D },
    Draw { vertex_count: u32, instance_count: u32, first_vertex: u32, first_instance: u32 },
    DrawIndexed {
        index_count: u32,
        instance_count: u32,
        first_index: u32,
        vertex_offset: i32,
        first_instance: u32,
    },
    BindIndexBuffer { buffer: NativeHandle, offset: u64, index_type: ash::vk::IndexType },
    BindVertexBuffers { first_binding: u32, buffers: Vec<NativeHandle>, offsets: Vec<u64> },
    /// Writes constants that every shader stage sees.
    PushConstants { pipeline_layout: NativeHandle, offset: u32, data: Vec<u8> },
    BeginDebugLabel { label: String, color: [u32; 4] },
    EndDebugLabel,
    InsertDebugLabel { label: String, color: [u32; 4] },
}

/// A command with its sequences and strings as mathematical values.
#[allow(inconsistent_fields)]
pub enum CommandView {
    BeginRendering {
        color_attachments: Seq<AttachmentView>,
        depth_attachment: Option<AttachmentView>,
        stencil_attachment: Option<AttachmentView>,
        render_area: Rect2D,
    },
    EndRendering,
    PipelineBarrier {
        src_stage_mask: ash::vk::PipelineStageFlags,
        dst_stage_mask: ash::vk::PipelineStageFlags,
        dependency_flags: ash::vk::DependencyFlags,
        memory_barriers: Seq<MemoryBarrier>,
        buffer_memory_barriers: Seq<RecordedBufferBarrier>,
        image_memory_barriers: Seq<RecordedImageBarrier>,
    },
    BindDescriptorSets {
        bind_point: ash::vk::PipelineBindPoint,
        pipeline_layout: NativeHandle,
        first_index: u32,
        descriptor_sets: Seq<NativeHandle>,
    },
    BindPipeline { pipeline: NativeHandle },
    SetViewport { viewport: Viewport },
    SetScissor { scissor: Rect2D },
    Draw { vertex_count: u32, instance_count: u32, first_vertex: u32, first_instance: u32 },
    DrawIndexed {
        index_count: u32,
        instance_count: u32,
        first_index: u32,
        vertex_offset: i32,
        first_instance: u32,
    },
    BindIndexBuffer { buffer: NativeHandle, offset: u64, index_type: ash::vk::IndexType },
    BindVertexBuffers { first_binding: u32, buffers: Seq<NativeHandle>, offsets: Seq<u64> },
    PushConstants { pipeline_layout: NativeHandle, offset: u32, data: Seq<u8> },
    BeginDebugLabel { label: Seq<char>, color: [u32; 4] },
    EndDebugLabel,
    InsertDebugLabel { label: Seq<char>, color: [u32; 4] },
}

/// The views of a sequence of recorded attachments.
pub open spec fn attachment_views(attachments: Seq<RenderingAttachment>) -> Seq<AttachmentView> {
    attachments.map_values(|a: RenderingAttachment| a@)
}

/// The view of an attachment that may be absent.
pub open spec fn optional_attachment_view(attachment: Option<RenderingAttachment>) -> Option<
    AttachmentView,
> {
    match attachment {
        Some(a) => Some(a@),
        None => None,
    }
}

impl View for Command {
    type V = CommandView;

    open spec fn view(&self) -> CommandView {
        match *self {
            Command::BeginRendering {
                color_attachments,
                depth_attachment,
                stencil_attachment,
                render_area,
            } => CommandView::BeginRendering {
                color_attachments: attachment_views(color_attachments@),
                depth_attachment: optional_attachment_view(depth_attachment),
                stencil_attachment: optional_attachment_view(stencil_attachment),
                render_area,
            },
            Command::EndRendering => CommandView::EndRendering,
            Command::PipelineBarrier {
                src_stage_mask,
                dst_stage_mask,
                dependency_flags,
                memory_barriers,
                buffer_memory_barriers,
                image_memory_barriers,
            } => CommandView::PipelineBarrier {
                src_stage_mask,
                dst_stage_mask,
                dependency_flags,
                memory_barriers: memory_barriers@,
                buffer_memory_barriers: buffer_memory_barriers@,
                image_memory_barriers: image_memory_barriers@,
            },
            Command::BindDescriptorSets {
                bind_point,
                pipeline_layout,
                first_index,
                descriptor_sets,
            } => CommandView::BindDescriptorSets {
                bind_point,
                pipeline_layout,
                first_index,
                descriptor_sets: descriptor_sets@,
            },
            Command::BindPipeline { pipeline } => CommandView::BindPipeline { pipeline },
            Command::SetViewport { viewport } => CommandView::SetViewport { viewport },
            Command::SetScissor { scissor } => CommandView::SetScissor { scissor },
            Command::Draw { vertex_count, instance_count, first_vertex, first_instance } => {
                CommandView::Draw { vertex_count, instance_count, first_vertex, first_instance }
            },
            Command::DrawIndexed {
                index_count,
                instance_count,
                first_index,
                vertex_offset,
                first_instance,
            } => CommandView::DrawIndexed {
                index_count,
                instance_count,
                first_index,
                vertex_offset,
                first_instance,
            },
            Command::BindIndexBuffer { buffer, offset, index_type } => {
                CommandView::BindIndexBuffer { buffer, offset, index_type }
            },
            Command::BindVertexBuffers { first_binding, buffers, offsets } => {
                CommandView::BindVertexBuffers {
                    first_binding,
                    buffers: buffers@,
                    offsets: offsets@,
                }
            },
            Command::PushConstants { pipeline_layout, offset, data } => {
                CommandView::PushConstants { pipeline_layout, offset, data: data@ }
            },
            Command::BeginDebugLabel { label, color } => CommandView::BeginDebugLabel {
                label: label@,
                color,
            },
            Command::EndDebugLabel => CommandView::EndDebugLabel,
            Command::InsertDebugLabel { label, color } => CommandView::InsertDebugLabel {
                label: label@,
                color,
            },
        }
    }
}

/// The views of a sequence of commands.
pub open spec fn command_views(commands: Seq<Command>) -> Seq<CommandView> {
    commands.map_values(|c: Command| c@)
}

impl CommandView {
    /// Whether the command is a draw call.
    pub open spec fn is_draw(self) -> bool {
        self is Draw || self is DrawIndexed
    }
}

/// Whether a render pass is open after `command`, given whether one was open
/// before it; `None` where the native API does not take the command there.
pub open spec fn stream_step(pass_open: bool, command: CommandView) -> Option<bool> {
    match command {
        CommandView::BeginRendering { .. } => if pass_open {
            None
        } else {
            Some(true)
        },
        CommandView::EndRendering => if pass_open {
            Some(false)
        } else {
            None
        },
        CommandView::PipelineBarrier { .. } => if pass_open {
            None
        } else {
            Some(false)
        },
        CommandView::BeginDebugLabel { .. }
        | CommandView::EndDebugLabel
        | CommandView::InsertDebugLabel { .. } => Some(pass_open),
        _ => if pass_open {
            Some(true)
        } else {
            None
        },
    }
}

/// Whether a render pass is open after a whole stream, read from its start;
/// `None` where some command stands where the native API does not take it.
pub open spec fn stream_state(commands: Seq<CommandView>) -> Option<bool>
    decreases commands.len(),
{
    if commands.len() == 0 {
        Some(false)
    } else {
        match stream_state(commands.drop_last()) {
            None => None,
            Some(pass_open) => stream_step(pass_open, commands.last()),
        }
    }
}

/// A stream with one more command is in the state that the command leads to.
pub proof fn lemma_stream_state_push(commands: Seq<CommandView>, command: CommandView)
    ensures
        stream_state(commands.push(command)) == match stream_state(commands) {
            None => None,
            Some(pass_open) => stream_step(pass_open, command),
        },
{
    assert(commands.push(command).drop_last() =~= commands);
}

/// In a stream that the native API accepts, every draw call stands inside a
/// render pass: a pass is open after each prefix that ends in one.
pub proof fn lemma_draws_inside_render_pass(commands: Seq<CommandView>, i: int)
    requires
        stream_state(commands) is Some,
        0 <= i < commands.len(),
        commands[i].is_draw(),
    ensures
        stream_state(commands.take(i)) == Some(true),
        stream_state(commands.take(i + 1)) == Some(true),
    decreases commands.len(),
{
    if i == commands.len() - 1 {
        assert(commands.take(i) =~= commands.drop_last());
        assert(commands.take(i + 1) =~= commands);
    } else {
        lemma_draws_inside_render_pass(commands.drop_last(), i);
        assert(commands.drop_last().take(i) =~= commands.take(i));
        assert(commands.drop_last().take(i + 1) =~= commands.take(i + 1));
    }
}

/// In a stream that the native API accepts and that leaves no render pass
/// open, every render pass that begins is ended later on.
pub proof fn lemma_render_pass_ended(commands: Seq<CommandView>, i: int) -> (j: int)
    requires
        stream_state(commands) == Some(false),
        0 <= i < commands.len(),
        commands[i] is BeginRendering,
    ensures
        i < j < commands.len(),
        commands[j] is EndRendering,
    decreases commands.len(),
{
    let front = commands.drop_last();
    let last = commands.last();
    if last is EndRendering {
        commands.len() - 1
    } else {
        assert(stream_state(front) is Some);
        assert(stream_step(stream_state(front)->Some_0, last) == Some(false));
        assert(i < commands.len() - 1);
        assert(front[i] == commands[i]);
        let j = lemma_render_pass_ended(front, i);
        assert(front[j] == commands[j]);
        j
    }
}

} // verus!
