//! Recording one unit of device work and handing it over for submission.
//!
//! A command buffer collects native commands as values. Nothing here talks to the
//! device: `submit` hands the collected stream out, with the queue and the
//! synchronisation objects it is to be submitted with.

use vstd::prelude::*;
use crate::command::{
    attachment_views, command_views, lemma_stream_state_push, stream_state, stream_step, Command,
    CommandView, MemoryBarrier, RecordedBufferBarrier, RecordedImageBarrier,
};
use crate::geometry::{Offset2D, Rect2D, Viewport};
use crate::gpu::{Gpu, NativeHandle, QueueType};
use crate::render_pass::{
    AttachmentView, BeginRenderPassInfo, ColorAttachment, RenderingAttachment,
};
use crate::types::{GPUFence, GPUSemaphore, GpuBuffer, GpuDescriptorSet, GpuImage, Pipeline};

verus! {

/// A call that the state of the command buffer does not allow. Each one is a
/// defect of the caller, not a condition to recover from.
#[derive(Clone, Copy, Debug, PartialEq, Eq, Structural)]
pub enum UsageViolation {
    /// The command buffer was submitted before.
    AlreadySubmitted,
    /// The call is for outside a render pass, and one is open.
    RenderPassActive,
    /// The call is for inside a render pass, and none is open.
    NoRenderPass,
    /// The command buffer is given up without having been submitted.
    NeverSubmitted,
    /// There is not one wait stage for each wait semaphore.
    WaitStageCountMismatch,
    /// There is not one offset for each vertex buffer.
    VertexBufferOffsetMismatch,
}

pub struct BufferMemoryBarrier<'a> {
    pub src_access_mask: ash::vk::AccessFlags,
    pub dst_access_mask: ash::vk::AccessFlags,
    pub src_queue_family_index: u32,
    pub dst_queue_family_index: u32,
    pub buffer: &'a GpuBuffer,
    pub offset: u64,
    pub size: u64,
}

pub struct ImageMemoryBarrier<'a> {
    pub src_access_mask: ash::vk::AccessFlags,
    pub dst_access_mask: ash::vk::AccessFlags,
    pub old_layout: ash::vk::ImageLayout,
    pub new_layout: ash::vk::ImageLayout,
    pub src_queue_family_index: u32,
    pub dst_queue_family_index: u32,
    pub image: &'a GpuImage,
    pub subresource_range: ash::vk::ImageSubresourceRange,
}

pub struct PipelineBarrierInfo<'a> {
    pub src_stage_mask: ash::vk::PipelineStageFlags,
    pub dst_stage_mask: ash::vk::PipelineStageFlags,
    pub dependency_flags: ash::vk::DependencyFlags,
    pub memory_barriers: &'a [MemoryBarrier],
    pub buffer_memory_barriers: &'a [BufferMemoryBarrier<'a>],
    pub image_memory_barriers: &'a [ImageMemoryBarrier<'a>],
}

pub struct CommandBufferSubmitInfo<'a> {
    pub wait_semaphores: &'a [&'a GPUSemaphore],
    /// The pipeline stage at which each wait applies, one for each wait semaphore.
    pub wait_stages: &'a [ash::vk::PipelineStageFlags],
    pub signal_semaphores: &'a [&'a GPUSemaphore],
    pub fence: Option<&'a GPUFence>,
}

impl<'a> Default for CommandBufferSubmitInfo<'a> {
    /// A submission that waits for nothing and signals nothing.
    fn default() -> (info: Self)
        ensures
            info.wait_semaphores@.len() == 0,
            info.wait_stages@.len() == 0,
            info.signal_semaphores@.len() == 0,
            info.fence is None,
    {
        CommandBufferSubmitInfo {
            wait_semaphores: &[],
            wait_stages: &[],
            signal_semaphores: &[],
            fence: None,
        }
    }
}

impl<'a> BufferMemoryBarrier<'a> {
    pub open spec fn recorded(self) -> RecordedBufferBarrier {
        RecordedBufferBarrier {
            src_access_mask: self.src_access_mask,
            dst_access_mask: self.dst_access_mask,
            src_queue_family_index: self.src_queue_family_index,
            dst_queue_family_index: self.dst_queue_family_index,
            buffer: self.buffer.inner,
            offset: self.offset,
            size: self.size,
        }
    }

    pub fn record(&self) -> (r: RecordedBufferBarrier)
        ensures
            r == self.recorded(),
    {
        RecordedBufferBarrier {
            src_access_mask: self.src_access_mask,
            dst_access_mask: self.dst_access_mask,
            src_queue_family_index: self.src_queue_family_index,
            dst_queue_family_index: self.dst_queue_family_index,
            buffer: self.buffer.inner,
            offset: self.offset,
            size: self.size,
        }
    }
}

impl<'a> ImageMemoryBarrier<'a> {
    pub open spec fn recorded(self) -> RecordedImageBarrier {
        RecordedImageBarrier {
            src_access_mask: self.src_access_mask,
            dst_access_mask: self.dst_access_mask,
            old_layout: self.old_layout,
            new_layout: self.new_layout,
            src_queue_family_index: self.src_queue_family_index,
            dst_queue_family_index: self.dst_queue_family_index,
            image: self.image.inner,
            subresource_range: self.subresource_range,
        }
    }

    pub fn record(&self) -> (r: RecordedImageBarrier)
        ensures
            r == self.recorded(),
    {
        RecordedImageBarrier {
            src_access_mask: self.src_access_mask,
            dst_access_mask: self.dst_access_mask,
            old_layout: self.old_layout,
            new_layout: self.new_layout,
            src_queue_family_index: self.src_queue_family_index,
            dst_queue_family_index: self.dst_queue_family_index,
            image: self.image.inner,
            subresource_range: self.subresource_range,
        }
    }
}

/// The recorded forms of a sequence of buffer barriers.
pub open spec fn recorded_buffer_barriers(barriers: Seq<BufferMemoryBarrier>) -> Seq<
    RecordedBufferBarrier,
> {
    Seq::new(barriers.len(), |i: int| barriers[i].recorded())
}

/// The recorded forms of a sequence of image barriers.
pub open spec fn recorded_image_barriers(barriers: Seq<ImageMemoryBarrier>) -> Seq<
    RecordedImageBarrier,
> {
    Seq::new(barriers.len(), |i: int| barriers[i].recorded())
}

/// The recorded forms of a sequence of colour attachments.
pub open spec fn recorded_color_attachments(attachments: Seq<ColorAttachment>) -> Seq<
    AttachmentView,
> {
    Seq::new(attachments.len(), |i: int| attachments[i].recorded())
}

/// The native handles of a sequence of semaphores.
pub open spec fn semaphore_handles(semaphores: Seq<&GPUSemaphore>) -> Seq<NativeHandle> {
    Seq::new(semaphores.len(), |i: int| semaphores[i].inner)
}

/// The native handles of a sequence of buffers.
pub open spec fn buffer_handles(buffers: Seq<&GpuBuffer>) -> Seq<NativeHandle> {
    Seq::new(buffers.len(), |i: int| buffers[i].inner)
}

/// The native handles of a sequence of descriptor sets.
pub open spec fn descriptor_set_handles(sets: Seq<&GpuDescriptorSet>) -> Seq<NativeHandle> {
    Seq::new(sets.len(), |i: int| sets[i].allocation.descriptor_set)
}

impl<'a> PipelineBarrierInfo<'a> {
    /// The native command that the barrier is recorded as.
    pub open spec fn command(self) -> CommandView {
        CommandView::PipelineBarrier {
            src_stage_mask: self.src_stage_mask,
            dst_stage_mask: self.dst_stage_mask,
            dependency_flags: self.dependency_flags,
            memory_barriers: self.memory_barriers@,
            buffer_memory_barriers: recorded_buffer_barriers(self.buffer_memory_barriers@),
            image_memory_barriers: recorded_image_barriers(self.image_memory_barriers@),
        }
    }
}

impl<'a> BeginRenderPassInfo<'a> {
    /// The native command that begins the pass.
    pub open spec fn command(self) -> CommandView {
        CommandView::BeginRendering {
            color_attachments: recorded_color_attachments(self.color_attachments@),
            depth_attachment: match self.depth_attachment {
                Some(a) => Some(a.recorded()),
                None => None,
            },
            stencil_attachment: match self.stencil_attachment {
                Some(a) => Some(a.recorded()),
                None => None,
            },
            render_area: self.render_area,
        }
    }
}

fn record_buffer_barriers(barriers: &[BufferMemoryBarrier]) -> (out: Vec<RecordedBufferBarrier>)
    ensures
        out@ == recorded_buffer_barriers(barriers@),
{
    let mut out: Vec<RecordedBufferBarrier> = Vec::new();
    let mut i: usize = 0;
    while i < barriers.len()
        invariant
            i <= barriers@.len(),
            out@ == recorded_buffer_barriers(barriers@.take(i as int)),
        decreases barriers@.len() - i,
    {
        out.push(barriers[i].record());
        assert(recorded_buffer_barriers(barriers@.take(i as int)).push(barriers@[i as int].recorded())
            =~= recorded_buffer_barriers(barriers@.take(i + 1)));
        i += 1;
    }
    assert(barriers@.take(i as int) =~= barriers@);
    out
}

fn record_image_barriers(barriers: &[ImageMemoryBarrier]) -> (out: Vec<RecordedImageBarrier>)
    ensures
        out@ == recorded_image_barriers(barriers@),
{
    let mut out: Vec<RecordedImageBarrier> = Vec::new();
    let mut i: usize = 0;
    while i < barriers.len()
        invariant
            i <= barriers@.len(),
            out@ == recorded_image_barriers(barriers@.take(i as int)),
        decreases barriers@.len() - i,
    {
        out.push(barriers[i].record());
        assert(recorded_image_barriers(barriers@.take(i as int)).push(barriers@[i as int].recorded())
            =~= recorded_image_barriers(barriers@.take(i + 1)));
        i += 1;
    }
    assert(barriers@.take(i as int) =~= barriers@);
    out
}

fn record_color_attachments(attachments: &[ColorAttachment]) -> (out: Vec<RenderingAttachment>)
    ensures
        attachment_views(out@) == recorded_color_attachments(attachments@),
{
    let mut out: Vec<RenderingAttachment> = Vec::new();
    let mut i: usize = 0;
    while i < attachments.len()
        invariant
            i <= attachments@.len(),
            attachment_views(out@) =~= recorded_color_attachments(attachments@.take(i as int)),
        decreases attachments@.len() - i,
    {
        let ghost before = out@;
        out.push(attachments[i].record());
        assert(attachment_views(out@) =~= attachment_views(before).push(
            attachments@[i as int].recorded(),
        ));
        assert(recorded_color_attachments(attachments@.take(i as int)).push(
            attachments@[i as int].recorded(),
        ) =~= recorded_color_attachments(attachments@.take(i + 1)));
        i += 1;
    }
    assert(attachments@.take(i as int) =~= attachments@);
    out
}

fn collect_semaphores(semaphores: &[&GPUSemaphore]) -> (out: Vec<NativeHandle>)
    ensures
        out@ == semaphore_handles(semaphores@),
{
    let mut out: Vec<NativeHandle> = Vec::new();
    let mut i: usize = 0;
    while i < semaphores.len()
        invariant
            i <= semaphores@.len(),
            out@ == semaphore_handles(semaphores@.take(i as int)),
        decreases semaphores@.len() - i,
    {
        out.push(semaphores[i].inner);
        assert(semaphore_handles(semaphores@.take(i as int)).push(semaphores@[i as int].inner)
            =~= semaphore_handles(semaphores@.take(i + 1)));
        i += 1;
    }
    assert(semaphores@.take(i as int) =~= semaphores@);
    out
}

fn collect_buffers(buffers: &[&GpuBuffer]) -> (out: Vec<NativeHandle>)
    ensures
        out@ == buffer_handles(buffers@),
{
    let mut out: Vec<NativeHandle> = Vec::new();
    let mut i: usize = 0;
    while i < buffers.len()
        invariant
            i <= buffers@.len(),
            out@ == buffer_handles(buffers@.take(i as int)),
        decreases buffers@.len() - i,
    {
        out.push(buffers[i].inner);
        assert(buffer_handles(buffers@.take(i as int)).push(buffers@[i as int].inner)
            =~= buffer_handles(buffers@.take(i + 1)));
        i += 1;
    }
    assert(buffers@.take(i as int) =~= buffers@);
    out
}

fn collect_descriptor_sets(sets: &[&GpuDescriptorSet]) -> (out: Vec<NativeHandle>)
    ensures
        out@ == descriptor_set_handles(sets@),
{
    let mut out: Vec<NativeHandle> = Vec::new();
    let mut i: usize = 0;
    while i < sets.len()
        invariant
            i <= sets@.len(),
            out@ == descriptor_set_handles(sets@.take(i as int)),
        decreases sets@.len() - i,
    {
        out.push(sets[i].allocation.descriptor_set);
        assert(descriptor_set_handles(sets@.take(i as int)).push(
            sets@[i as int].allocation.descriptor_set,
        ) =~= descriptor_set_handles(sets@.take(i + 1)));
        i += 1;
    }
    assert(sets@.take(i as int) =~= sets@);
    out
}

/// A copy of a slice of plain values.
pub fn copy_values<T: Copy>(values: &[T]) -> (out: Vec<T>)
    ensures
        out@ == values@,
{
    let mut out: Vec<T> = Vec::new();
    let mut i: usize = 0;
    while i < values.len()
        invariant
            i <= values@.len(),
            out@ == values@.take(i as int),
        decreases values@.len() - i,
    {
        out.push(values[i]);
        assert(values@.take(i as int).push(values@[i as int]) =~= values@.take(i + 1));
        i += 1;
    }
    assert(values@.take(i as int) =~= values@);
    out
}

/// What a command buffer is, for the purpose of its contracts.
pub struct RecorderView {
    pub inner: NativeHandle,
    pub target_queue: NativeHandle,
    pub debug_utilities: bool,
    pub submitted: bool,
    pub render_pass_open: bool,
    /// The commands recorded so far, oldest first.
    pub commands: Seq<CommandView>,
}

/// The states a command buffer goes through.
#[derive(Clone, Copy, Debug, PartialEq, Eq, Structural)]
pub enum RecorderState {
    Recording,
    RenderPassActive,
    Submitted,
}

impl RecorderView {
    pub open spec fn state(self) -> RecorderState {
        if self.submitted {
            RecorderState::Submitted
        } else if self.render_pass_open {
            RecorderState::RenderPassActive
        } else {
            RecorderState::Recording
        }
    }

    /// Why a call for outside a render pass is refused, if it is.
    pub open spec fn outside_violation(self) -> Option<UsageViolation> {
        if self.submitted {
            Some(UsageViolation::AlreadySubmitted)
        } else if self.render_pass_open {
            Some(UsageViolation::RenderPassActive)
        } else {
            None
        }
    }

    /// Why a call for inside a render pass is refused, if it is.
    pub open spec fn inside_violation(self) -> Option<UsageViolation> {
        if self.submitted {
            Some(UsageViolation::AlreadySubmitted)
        } else if !self.render_pass_open {
            Some(UsageViolation::NoRenderPass)
        } else {
            None
        }
    }

    /// The same command buffer with one more command at the end of its stream.
    pub open spec fn record(self, command: CommandView) -> RecorderView {
        RecorderView { commands: self.commands.push(command), ..self }
    }

    /// The command buffer after a render pass was begun with `command`.
    pub open spec fn begin_pass(self, command: CommandView) -> RecorderView {
        RecorderView {
            commands: self.commands.push(command),
            render_pass_open: true,
            ..self
        }
    }

    /// The command buffer after the open render pass was ended.
    pub open spec fn end_pass(self) -> RecorderView {
        RecorderView {
            commands: self.commands.push(CommandView::EndRendering),
            render_pass_open: false,
            ..self
        }
    }

    /// The command buffer after its stream was handed over for submission.
    pub open spec fn after_submit(self) -> RecorderView {
        RecorderView { commands: Seq::empty(), submitted: true, ..self }
    }

    /// Whether anything was recorded.
    pub open spec fn has_recorded_anything(self) -> bool {
        self.commands.len() > 0
    }
}

/// What is to be handed to a device queue in one submission.
pub struct QueueSubmission {
    pub queue: NativeHandle,
    pub command_buffer: NativeHandle,
    /// The commands to put into the native command buffer, in this order,
    /// before recording is closed.
    pub commands: Vec<Command>,
    pub wait_semaphores: Vec<NativeHandle>,
    pub wait_stages: Vec<ash::vk::PipelineStageFlags>,
    pub signal_semaphores: Vec<NativeHandle>,
    /// The fence to signal when the work is done; `None` for no fence.
    pub fence: Option<NativeHandle>,
}

pub struct QueueSubmissionView {
    pub queue: NativeHandle,
    pub command_buffer: NativeHandle,
    pub commands: Seq<CommandView>,
    pub wait_semaphores: Seq<NativeHandle>,
    pub wait_stages: Seq<ash::vk::PipelineStageFlags>,
    pub signal_semaphores: Seq<NativeHandle>,
    pub fence: Option<NativeHandle>,
}

impl View for QueueSubmission {
    type V = QueueSubmissionView;

    open spec fn view(&self) -> QueueSubmissionView {
        QueueSubmissionView {
            queue: self.queue,
            command_buffer: self.command_buffer,
            commands: command_views(self.commands@),
            wait_semaphores: self.wait_semaphores@,
            wait_stages: self.wait_stages@,
            signal_semaphores: self.signal_semaphores@,
            fence: self.fence,
        }
    }
}

/// What `submit` asks of the device.
pub enum Submission {
    /// Nothing was recorded: there is nothing to submit.
    Nothing,
    /// One submission to a queue.
    Queue(QueueSubmission),
}

impl<'a> CommandBufferSubmitInfo<'a> {
    pub open spec fn fence_handle(self) -> Option<NativeHandle> {
        match self.fence {
            Some(fence) => Some(fence.inner),
            None => None,
        }
    }

    /// The submission of `recorder`'s stream with these synchronisation objects.
    pub open spec fn submission(self, recorder: RecorderView) -> QueueSubmissionView {
        QueueSubmissionView {
            queue: recorder.target_queue,
            command_buffer: recorder.inner,
            commands: recorder.commands,
            wait_semaphores: semaphore_handles(self.wait_semaphores@),
            wait_stages: self.wait_stages@,
            signal_semaphores: semaphore_handles(self.signal_semaphores@),
            fence: self.fence_handle(),
        }
    }

    /// Why a submission with these objects is refused, if it is.
    pub open spec fn violation(self, recorder: RecorderView) -> Option<UsageViolation> {
        if recorder.outside_violation() is Some {
            recorder.outside_violation()
        } else if self.wait_stages@.len() != self.wait_semaphores@.len() {
            Some(UsageViolation::WaitStageCountMismatch)
        } else {
            None
        }
    }
}

/// One recordable and submittable unit of device work.
pub struct CommandBuffer {
    inner_command_buffer: NativeHandle,
    target_queue: NativeHandle,
    debug_utilities: bool,
    has_been_submitted: bool,
    render_pass_open: bool,
    commands: Vec<Command>,
}

impl View for CommandBuffer {
    type V = RecorderView;

    closed spec fn view(&self) -> RecorderView {
        RecorderView {
            inner: self.inner_command_buffer,
            target_queue: self.target_queue,
            debug_utilities: self.debug_utilities,
            submitted: self.has_been_submitted,
            render_pass_open: self.render_pass_open,
            commands: command_views(self.commands@),
        }
    }
}

impl CommandBuffer {
    /// The stream recorded so far is one that the native API accepts, a render
    /// pass is open at its end exactly when the command buffer says so, and a
    /// submitted command buffer holds no commands.
    pub closed spec fn wf(&self) -> bool {
        &&& stream_state(command_views(self.commands@)) == Some(self.render_pass_open)
        &&& self.has_been_submitted ==> !self.render_pass_open && self.commands@.len() == 0
    }

    /// What well-formedness says of the recorded stream.
    pub proof fn lemma_stream_accepted(&self)
        requires
            self.wf(),
        ensures
            stream_state(self@.commands) == Some(self@.render_pass_open),
            self@.submitted ==> !self@.render_pass_open && self@.commands.len() == 0,
    {
        assert(self.commands@.len() == 0 ==> command_views(self.commands@) =~= Seq::empty());
    }

    /// A command buffer that records into the native command buffer
    /// `inner_command_buffer`, which was allocated from
    /// `target_queue.get_vk_command_pool(gpu)` and is in the recording state.
    pub fn new(gpu: &Gpu, target_queue: QueueType, inner_command_buffer: NativeHandle) -> (cb:
        CommandBuffer)
        ensures
            cb.wf(),
            cb@ == (RecorderView {
                inner: inner_command_buffer,
                target_queue: target_queue.spec_queue(gpu.device()),
                debug_utilities: gpu.device().debug_utilities,
                submitted: false,
                render_pass_open: false,
                commands: Seq::empty(),
            }),
    {
        let cb = CommandBuffer {
            inner_command_buffer,
            target_queue: target_queue.get_vk_queue(gpu),
            debug_utilities: gpu.state().debug_utilities,
            has_been_submitted: false,
            render_pass_open: false,
            commands: Vec::new(),
        };
        assert(command_views(cb.commands@) =~= Seq::empty());
        cb
    }

    pub fn inner(&self) -> (h: NativeHandle)
        ensures
            h == self@.inner,
    {
        self.inner_command_buffer
    }

    pub fn state(&self) -> (s: RecorderState)
        ensures
            s == self@.state(),
    {
        if self.has_been_submitted {
            RecorderState::Submitted
        } else if self.render_pass_open {
            RecorderState::RenderPassActive
        } else {
            RecorderState::Recording
        }
    }

    pub fn has_recorded_anything(&self) -> (r: bool)
        ensures
            r == self@.has_recorded_anything(),
    {
        self.commands.len() > 0
    }

    /// Appends a command that the stream takes in its present state.
    fn record(&mut self, command: Command, pass_open_after: bool)
        requires
            old(self).wf(),
            stream_step(old(self)@.render_pass_open, command@) == Some(pass_open_after),
            !old(self)@.submitted,
        ensures
            final(self).wf(),
            final(self)@ == (RecorderView {
                commands: old(self)@.commands.push(command@),
                render_pass_open: pass_open_after,
                ..old(self)@
            }),
    {
        proof {
            lemma_stream_state_push(command_views(self.commands@), command@);
            assert(command_views(self.commands@.push(command)) =~= command_views(
                self.commands@,
            ).push(command@));
        }
        self.commands.push(command);
        self.render_pass_open = pass_open_after;
    }

    /// Records a pipeline barrier. Barriers stand outside render passes only.
    pub fn pipeline_barrier(&mut self, barrier_info: &PipelineBarrierInfo) -> (r: Result<
        (),
        UsageViolation,
    >)
        requires
            old(self).wf(),
        ensures
            final(self).wf(),
            match old(self)@.outside_violation() {
                Some(violation) => r == Err::<(), UsageViolation>(violation) && final(self)@
                    == old(self)@,
                None => r is Ok && final(self)@ == old(self)@.record(barrier_info.command()),
            },
    {
        if self.has_been_submitted {
            return Err(UsageViolation::AlreadySubmitted);
        }
        if self.render_pass_open {
            return Err(UsageViolation::RenderPassActive);
        }
        let memory_barriers = copy_values(barrier_info.memory_barriers);
        let buffer_memory_barriers = record_buffer_barriers(barrier_info.buffer_memory_barriers);
        let image_memory_barriers = record_image_barriers(barrier_info.image_memory_barriers);
        self.record(
            Command::PipelineBarrier {
                src_stage_mask: barrier_info.src_stage_mask,
                dst_stage_mask: barrier_info.dst_stage_mask,
                dependency_flags: barrier_info.dependency_flags,
                memory_barriers,
                buffer_memory_barriers,
                image_memory_barriers,
            },
            false,
        );
        Ok(())
    }

    /// Records the binding of descriptor sets, inside a render pass.
    pub fn bind_descriptor_sets(
        &mut self,
        bind_point: ash::vk::PipelineBindPoint,
        material: &Pipeline,
        first_index: u32,
        descriptor_sets: &[&GpuDescriptorSet],
    ) -> (r: Result<(), UsageViolation>)
        requires
            old(self).wf(),
        ensures
            final(self).wf(),
            match old(self)@.inside_violation() {
                Some(violation) => r == Err::<(), UsageViolation>(violation) && final(self)@
                    == old(self)@,
                None => r is Ok && final(self)@ == old(self)@.record(
                    CommandView::BindDescriptorSets {
                        bind_point,
                        pipeline_layout: material.pipeline_layout,
                        first_index,
                        descriptor_sets: descriptor_set_handles(descriptor_sets@),
                    },
                ),
            },
    {
        if self.has_been_submitted {
            return Err(UsageViolation::AlreadySubmitted);
        }
        if !self.render_pass_open {
            return Err(UsageViolation::NoRenderPass);
        }
        let descriptor_sets = collect_descriptor_sets(descriptor_sets);
        self.record(
            Command::BindDescriptorSets {
                bind_point,
                pipeline_layout: material.pipeline_layout,
                first_index,
                descriptor_sets,
            },
            true,
        );
        Ok(())
    }

    /// Closes the command buffer and hands its stream over. Submitting a
    /// command buffer on which nothing was recorded asks nothing of the device.
    pub fn submit(&mut self, submit_info: &CommandBufferSubmitInfo) -> (r: Result<
        Submission,
        UsageViolation,
    >)
        requires
            old(self).wf(),
        ensures
            final(self).wf(),
            match submit_info.violation(old(self)@) {
                Some(violation) => r == Err::<Submission, UsageViolation>(violation)
                    && final(self)@ == old(self)@,
                None => {
                    &&& final(self)@ == old(self)@.after_submit()
                    &&& r is Ok
                    &&& !old(self)@.has_recorded_anything() ==> r->Ok_0 is Nothing
                    &&& old(self)@.has_recorded_anything() ==> r->Ok_0 is Queue
                        && r->Ok_0->Queue_0@ == submit_info.submission(old(self)@)
                        && stream_state(r->Ok_0->Queue_0@.commands) == Some(false)
                },
            },
    {
        if self.has_been_submitted {
            return Err(UsageViolation::AlreadySubmitted);
        }
        if self.render_pass_open {
            return Err(UsageViolation::RenderPassActive);
        }
        if submit_info.wait_stages.len() != submit_info.wait_semaphores.len() {
            return Err(UsageViolation::WaitStageCountMismatch);
        }
        let mut commands: Vec<Command> = Vec::new();
        std::mem::swap(&mut self.commands, &mut commands);
        self.has_been_submitted = true;
        assert(command_views(self.commands@) =~= Seq::empty());
        if commands.len() == 0 {
            return Ok(Submission::Nothing);
        }
        let wait_semaphores = collect_semaphores(submit_info.wait_semaphores);
        let signal_semaphores = collect_semaphores(submit_info.signal_semaphores);
        let wait_stages = copy_values(submit_info.wait_stages);
        let fence = match submit_info.fence {
            Some(fence) => Some(fence.inner),
            None => None,
        };
        Ok(
            Submission::Queue(
                QueueSubmission {
                    queue: self.target_queue,
                    command_buffer: self.inner_command_buffer,
                    commands,
                    wait_semaphores,
                    wait_stages,
                    signal_semaphores,
                    fence,
                },
            ),
        )
    }

    /// What giving up the command buffer amounts to: a violation unless it was
    /// submitted.
    pub fn on_drop(&self) -> (r: Result<(), UsageViolation>)
        ensures
            r == if self@.submitted {
                Ok::<(), UsageViolation>(())
            } else {
                Err::<(), UsageViolation>(UsageViolation::NeverSubmitted)
            },
    {
        if !self.has_been_submitted {
            Err(UsageViolation::NeverSubmitted)
        } else {
            Ok(())
        }
    }
}

/// What a recording call for inside a render pass leaves behind: on a violation
/// the error and the command buffer as it was, else success and `expected`.
pub open spec fn recorded_inside(
    before: RecorderView,
    after: RecorderView,
    r: Result<(), UsageViolation>,
    expected: RecorderView,
) -> bool {
    match before.inside_violation() {
        Some(violation) => r == Err::<(), UsageViolation>(violation) && after == before,
        None => r is Ok && after == expected,
    }
}

/// The recording scope of one render pass. It borrows the command buffer for as
/// long as it lives, so nothing else records into the command buffer meanwhile.
pub struct RenderPassCommand<'c> {
    pub command_buffer: &'c mut CommandBuffer,
    pub viewport_area: Option<Viewport>,
    pub scissor_area: Option<Rect2D>,
    pub has_draw_command: bool,
    pub render_area: Rect2D,
}

impl CommandBuffer {
    /// Begins a render pass and returns its recording scope.
    pub fn begin_render_pass<'p>(&'p mut self, info: &BeginRenderPassInfo<'p>) -> (r: Result<
        RenderPassCommand<'p>,
        UsageViolation,
    >)
        requires
            old(self).wf(),
        ensures
            match old(self)@.outside_violation() {
                Some(violation) => r is Err && r->Err_0 == violation && *final(self) == *old(
                    self,
                ),
                None => {
                    &&& r is Ok
                    &&& r->Ok_0.command_buffer.wf()
                    &&& r->Ok_0.command_buffer@ == old(self)@.begin_pass(info.command())
                    &&& r->Ok_0.viewport_area is None
                    &&& r->Ok_0.scissor_area is None
                    &&& !r->Ok_0.has_draw_command
                    &&& r->Ok_0.render_area == info.render_area
                    &&& *final(self) == *final(r->Ok_0.command_buffer)
                },
            },
    {
        RenderPassCommand::new(self, info)
    }
}

impl<'c> RenderPassCommand<'c> {
    /// Records the beginning of a render pass with the attachments of `info`.
    pub fn new(command_buffer: &'c mut CommandBuffer, info: &BeginRenderPassInfo<'c>) -> (r:
        Result<RenderPassCommand<'c>, UsageViolation>)
        requires
            old(command_buffer).wf(),
        ensures
            match old(command_buffer)@.outside_violation() {
                Some(violation) => r is Err && r->Err_0 == violation && *final(command_buffer)
                    == *old(command_buffer),
                None => {
                    &&& r is Ok
                    &&& r->Ok_0.command_buffer.wf()
                    &&& r->Ok_0.command_buffer@ == old(command_buffer)@.begin_pass(
                        info.command(),
                    )
                    &&& r->Ok_0.viewport_area is None
                    &&& r->Ok_0.scissor_area is None
                    &&& !r->Ok_0.has_draw_command
                    &&& r->Ok_0.render_area == info.render_area
                    &&& *final(command_buffer) == *final(r->Ok_0.command_buffer)
                },
            },
    {
        if command_buffer.has_been_submitted {
            return Err(UsageViolation::AlreadySubmitted);
        }
        if command_buffer.render_pass_open {
            return Err(UsageViolation::RenderPassActive);
        }
        let color_attachments = record_color_attachments(info.color_attachments);
        let depth_attachment = match &info.depth_attachment {
            Some(attachment) => Some(attachment.record()),
            None => None,
        };
        let stencil_attachment = match &info.stencil_attachment {
            Some(attachment) => Some(attachment.record()),
            None => None,
        };
        command_buffer.record(
            Command::BeginRendering {
                color_attachments,
                depth_attachment,
                stencil_attachment,
                render_area: info.render_area,
            },
            true,
        );
        Ok(
            RenderPassCommand {
                command_buffer,
                has_draw_command: false,
                viewport_area: None,
                scissor_area: None,
                render_area: info.render_area,
            },
        )
    }

    /// The viewport that draw calls of this scope are issued with.
    pub open spec fn draw_viewport(self) -> Viewport {
        match self.viewport_area {
            Some(viewport) => viewport,
            None => self.render_area.full_viewport(),
        }
    }

    /// The scissor that draw calls of this scope are issued with.
    pub open spec fn draw_scissor(self) -> Rect2D {
        match self.scissor_area {
            Some(scissor) => scissor,
            None => self.render_area.full_scissor(),
        }
    }

    /// `recorder` after the viewport and the scissor of this scope were set.
    pub open spec fn prepared(self, recorder: RecorderView) -> RecorderView {
        recorder.record(CommandView::SetViewport { viewport: self.draw_viewport() }).record(
            CommandView::SetScissor { scissor: self.draw_scissor() },
        )
    }

    /// Whether the two scopes differ in nothing but what they have recorded.
    pub open spec fn same_scope(self, other: RenderPassCommand<'c>) -> bool {
        &&& self.viewport_area == other.viewport_area
        &&& self.scissor_area == other.scissor_area
        &&& self.render_area == other.render_area
    }

    /// Sets the viewport of the draw calls that follow.
    pub fn set_viewport(&mut self, viewport: Viewport)
        ensures
            *final(self).command_buffer == *old(self).command_buffer,
            *final(final(self).command_buffer) == *final(old(self).command_buffer),
            final(self).viewport_area == Some(viewport),
            final(self).scissor_area == old(self).scissor_area,
            final(self).render_area == old(self).render_area,
            final(self).has_draw_command == old(self).has_draw_command,
    {
        self.viewport_area = Some(viewport);
    }

    /// Sets the scissor of the draw calls that follow.
    pub fn set_scissor(&mut self, scissor: Rect2D)
        ensures
            *final(self).command_buffer == *old(self).command_buffer,
            *final(final(self).command_buffer) == *final(old(self).command_buffer),
            final(self).scissor_area == Some(scissor),
            final(self).viewport_area == old(self).viewport_area,
            final(self).render_area == old(self).render_area,
            final(self).has_draw_command == old(self).has_draw_command,
    {
        self.scissor_area = Some(scissor);
    }

    /// Records the binding of a graphics pipeline.
    pub fn bind_pipeline(&mut self, material: &Pipeline) -> (r: Result<(), UsageViolation>)
        requires
            old(self).command_buffer.wf(),
        ensures
            final(self).command_buffer.wf(),
            *final(final(self).command_buffer) == *final(old(self).command_buffer),
            final(self).same_scope(*old(self)),
            final(self).has_draw_command == old(self).has_draw_command,
            recorded_inside(
                old(self).command_buffer@,
                final(self).command_buffer@,
                r,
                old(self).command_buffer@.record(
                    CommandView::BindPipeline { pipeline: material.pipeline },
                ),
            ),
    {
        if self.command_buffer.has_been_submitted {
            return Err(UsageViolation::AlreadySubmitted);
        }
        if !self.command_buffer.render_pass_open {
            return Err(UsageViolation::NoRenderPass);
        }
        self.command_buffer.record(Command::BindPipeline { pipeline: material.pipeline }, true);
        Ok(())
    }

    /// Records the binding of descriptor sets.
    pub fn bind_descriptor_sets(
        &mut self,
        bind_point: ash::vk::PipelineBindPoint,
        material: &Pipeline,
        first_index: u32,
        descriptor_sets: &[&GpuDescriptorSet],
    ) -> (r: Result<(), UsageViolation>)
        requires
            old(self).command_buffer.wf(),
        ensures
            final(self).command_buffer.wf(),
            *final(final(self).command_buffer) == *final(old(self).command_buffer),
            final(self).same_scope(*old(self)),
            final(self).has_draw_command == old(self).has_draw_command,
            recorded_inside(
                old(self).command_buffer@,
                final(self).command_buffer@,
                r,
                old(self).command_buffer@.record(
                    CommandView::BindDescriptorSets {
                        bind_point,
                        pipeline_layout: material.pipeline_layout,
                        first_index,
                        descriptor_sets: descriptor_set_handles(descriptor_sets@),
                    },
                ),
            ),
    {
        self.command_buffer.bind_descriptor_sets(bind_point, material, first_index, descriptor_sets)
    }

    /// Records the viewport and the scissor that the next draw call needs: those
    /// that were set, else the whole render area, the viewport with its y axis
    /// pointing up.
    fn prepare_draw(&mut self)
        requires
            old(self).command_buffer.wf(),
            old(self).command_buffer@.inside_violation() is None,
        ensures
            final(self).command_buffer.wf(),
            *final(final(self).command_buffer) == *final(old(self).command_buffer),
            final(self).same_scope(*old(self)),
            final(self).has_draw_command == old(self).has_draw_command,
            final(self).command_buffer@ == old(self).prepared(old(self).command_buffer@),
    {
        let viewport = match self.viewport_area {
            Some(viewport) => viewport,
            None => Viewport {
                x: 0,
                y: self.render_area.extent.height as i64,
                width: self.render_area.extent.width as i64,
                height: -(self.render_area.extent.height as i64),
            },
        };
        let scissor = match self.scissor_area {
            Some(scissor) => scissor,
            None => Rect2D { offset: Offset2D { x: 0, y: 0 }, extent: self.render_area.extent },
        };
        self.command_buffer.record(Command::SetViewport { viewport }, true);
        self.command_buffer.record(Command::SetScissor { scissor }, true);
    }

    /// Records an indexed draw call, after the viewport and scissor it uses.
    pub fn draw_indexed(
        &mut self,
        index_count: u32,
        instance_count: u32,
        first_index: u32,
        vertex_offset: i32,
        first_instance: u32,
    ) -> (r: Result<(), UsageViolation>)
        requires
            old(self).command_buffer.wf(),
        ensures
            final(self).command_buffer.wf(),
            *final(final(self).command_buffer) == *final(old(self).command_buffer),
            final(self).same_scope(*old(self)),
            final(self).has_draw_command == (old(self).has_draw_command || r is Ok),
            recorded_inside(
                old(self).command_buffer@,
                final(self).command_buffer@,
                r,
                old(self).prepared(old(self).command_buffer@).record(
                    CommandView::DrawIndexed {
                        index_count,
                        instance_count,
                        first_index,
                        vertex_offset,
                        first_instance,
                    },
                ),
            ),
    {
        if self.command_buffer.has_been_submitted {
            return Err(UsageViolation::AlreadySubmitted);
        }
        if !self.command_buffer.render_pass_open {
            return Err(UsageViolation::NoRenderPass);
        }
        self.prepare_draw();
        self.has_draw_command = true;
        self.command_buffer.record(
            Command::DrawIndexed {
                index_count,
                instance_count,
                first_index,
                vertex_offset,
                first_instance,
            },
            true,
        );
        Ok(())
    }

    /// Records a draw call, after the viewport and scissor it uses.
    pub fn draw(
        &mut self,
        vertex_count: u32,
        instance_count: u32,
        first_vertex: u32,
        first_instance: u32,
    ) -> (r: Result<(), UsageViolation>)
        requires
            old(self).command_buffer.wf(),
        ensures
            final(self).command_buffer.wf(),
            *final(final(self).command_buffer) == *final(old(self).command_buffer),
            final(self).same_scope(*old(self)),
            final(self).has_draw_command == (old(self).has_draw_command || r is Ok),
            recorded_inside(
                old(self).command_buffer@,
                final(self).command_buffer@,
                r,
                old(self).prepared(old(self).command_buffer@).record(
                    CommandView::Draw {
                        vertex_count,
                        instance_count,
                        first_vertex,
                        first_instance,
                    },
                ),
            ),
    {
        if self.command_buffer.has_been_submitted {
            return Err(UsageViolation::AlreadySubmitted);
        }
        if !self.command_buffer.render_pass_open {
            return Err(UsageViolation::NoRenderPass);
        }
        self.prepare_draw();
        self.has_draw_command = true;
        self.command_buffer.record(
            Command::Draw { vertex_count, instance_count, first_vertex, first_instance },
            true,
        );
        Ok(())
    }

    /// Records the binding of an index buffer.
    pub fn bind_index_buffer(
        &mut self,
        buffer: &GpuBuffer,
        offset: u64,
        index_type: ash::vk::IndexType,
    ) -> (r: Result<(), UsageViolation>)
        requires
            old(self).command_buffer.wf(),
        ensures
            final(self).command_buffer.wf(),
            *final(final(self).command_buffer) == *final(old(self).command_buffer),
            final(self).same_scope(*old(self)),
            final(self).has_draw_command == old(self).has_draw_command,
            recorded_inside(
                old(self).command_buffer@,
                final(self).command_buffer@,
                r,
                old(self).command_buffer@.record(
                    CommandView::BindIndexBuffer { buffer: buffer.inner, offset, index_type },
                ),
            ),
    {
        if self.command_buffer.has_been_submitted {
            return Err(UsageViolation::AlreadySubmitted);
        }
        if !self.command_buffer.render_pass_open {
            return Err(UsageViolation::NoRenderPass);
        }
        self.command_buffer.record(
            Command::BindIndexBuffer { buffer: buffer.inner, offset, index_type },
            true,
        );
        Ok(())
    }

    /// Records the binding of vertex buffers, each at its own offset.
    pub fn bind_vertex_buffer(
        &mut self,
        first_binding: u32,
        buffers: &[&GpuBuffer],
        offsets: &[u64],
    ) -> (r: Result<(), UsageViolation>)
        requires
            old(self).command_buffer.wf(),
        ensures
            final(self).command_buffer.wf(),
            *final(final(self).command_buffer) == *final(old(self).command_buffer),
            final(self).same_scope(*old(self)),
            final(self).has_draw_command == old(self).has_draw_command,
            buffers@.len() != offsets@.len() ==> r == Err::<(), UsageViolation>(
                UsageViolation::VertexBufferOffsetMismatch,
            ) && final(self).command_buffer@ == old(self).command_buffer@,
            buffers@.len() == offsets@.len() ==> recorded_inside(
                old(self).command_buffer@,
                final(self).command_buffer@,
                r,
                old(self).command_buffer@.record(
                    CommandView::BindVertexBuffers {
                        first_binding,
                        buffers: buffer_handles(buffers@),
                        offsets: offsets@,
                    },
                ),
            ),
    {
        if buffers.len() != offsets.len() {
            return Err(UsageViolation::VertexBufferOffsetMismatch);
        }
        if self.command_buffer.has_been_submitted {
            return Err(UsageViolation::AlreadySubmitted);
        }
        if !self.command_buffer.render_pass_open {
            return Err(UsageViolation::NoRenderPass);
        }
        let vertex_buffers = collect_buffers(buffers);
        let offsets = copy_values(offsets);
        self.command_buffer.record(
            Command::BindVertexBuffers { first_binding, buffers: vertex_buffers, offsets },
            true,
        );
        Ok(())
    }

    /// Records a write of `data`, the bytes of a value, to the push constants of
    /// every shader stage.
    pub fn push_constant(&mut self, pipeline: &Pipeline, data: &[u8], offset: u32) -> (r: Result<
        (),
        UsageViolation,
    >)
        requires
            old(self).command_buffer.wf(),
        ensures
            final(self).command_buffer.wf(),
            *final(final(self).command_buffer) == *final(old(self).command_buffer),
            final(self).same_scope(*old(self)),
            final(self).has_draw_command == old(self).has_draw_command,
            recorded_inside(
                old(self).command_buffer@,
                final(self).command_buffer@,
                r,
                old(self).command_buffer@.record(
                    CommandView::PushConstants {
                        pipeline_layout: pipeline.pipeline_layout,
                        offset,
                        data: data@,
                    },
                ),
            ),
    {
        if self.command_buffer.has_been_submitted {
            return Err(UsageViolation::AlreadySubmitted);
        }
        if !self.command_buffer.render_pass_open {
            return Err(UsageViolation::NoRenderPass);
        }
        let data = copy_values(data);
        self.command_buffer.record(
            Command::PushConstants { pipeline_layout: pipeline.pipeline_layout, offset, data },
            true,
        );
        Ok(())
    }

    /// Ends the render pass and gives the command buffer back.
    pub fn end(self) -> (r: Result<(), UsageViolation>)
        requires
            old(self.command_buffer).wf(),
        ensures
            final(self.command_buffer).wf(),
            recorded_inside(
                old(self.command_buffer)@,
                final(self.command_buffer)@,
                r,
                old(self.command_buffer)@.end_pass(),
            ),
    {
        if self.command_buffer.has_been_submitted {
            return Err(UsageViolation::AlreadySubmitted);
        }
        if !self.command_buffer.render_pass_open {
            return Err(UsageViolation::NoRenderPass);
        }
        self.command_buffer.record(Command::EndRendering, false);
        Ok(())
    }
}

/// A debug region that was begun in a native command buffer.
pub struct ScopedDebugLabelInner {
    pub command_buffer: NativeHandle,
}

/// The scope of a debug region. It holds nothing on a device that cannot label.
pub struct ScopedDebugLabel {
    pub inner: Option<ScopedDebugLabelInner>,
}

impl ScopedDebugLabelInner {
    /// Records the beginning of a region named `label` with the given colour.
    fn new(label: &str, color: [u32; 4], command_buffer: &mut CommandBuffer) -> (r:
        ScopedDebugLabelInner)
        requires
            old(command_buffer).wf(),
            !old(command_buffer)@.submitted,
        ensures
            final(command_buffer).wf(),
            final(command_buffer)@ == old(command_buffer)@.record(
                CommandView::BeginDebugLabel { label: label@, color },
            ),
            r.command_buffer == old(command_buffer)@.inner,
    {
        let pass_open = command_buffer.render_pass_open;
        command_buffer.record(Command::BeginDebugLabel { label: label.to_owned(), color }, pass_open);
        ScopedDebugLabelInner { command_buffer: command_buffer.inner_command_buffer }
    }

    /// Records the end of the region.
    fn end(&self, command_buffer: &mut CommandBuffer)
        requires
            old(command_buffer).wf(),
            !old(command_buffer)@.submitted,
        ensures
            final(command_buffer).wf(),
            final(command_buffer)@ == old(command_buffer)@.record(CommandView::EndDebugLabel),
    {
        let pass_open = command_buffer.render_pass_open;
        command_buffer.record(Command::EndDebugLabel, pass_open);
    }
}

impl ScopedDebugLabel {
    /// Ends the region in `command_buffer`, where one was begun.
    pub fn end(self, command_buffer: &mut CommandBuffer) -> (r: Result<(), UsageViolation>)
        requires
            old(command_buffer).wf(),
        ensures
            final(command_buffer).wf(),
            old(command_buffer)@.submitted ==> r == Err::<(), UsageViolation>(
                UsageViolation::AlreadySubmitted,
            ) && final(command_buffer)@ == old(command_buffer)@,
            !old(command_buffer)@.submitted ==> r is Ok && final(command_buffer)@ == if self.inner
                is Some {
                old(command_buffer)@.record(CommandView::EndDebugLabel)
            } else {
                old(command_buffer)@
            },
    {
        if command_buffer.has_been_submitted {
            return Err(UsageViolation::AlreadySubmitted);
        }
        match &self.inner {
            Some(label) => {
                label.end(command_buffer);
            },
            None => {},
        }
        Ok(())
    }
}

impl CommandBuffer {
    /// Begins a debug region, where the device can label; elsewhere records nothing.
    pub fn begin_debug_region(&mut self, label: &str, color: [u32; 4]) -> (r: Result<
        ScopedDebugLabel,
        UsageViolation,
    >)
        requires
            old(self).wf(),
        ensures
            final(self).wf(),
            old(self)@.submitted ==> r is Err && r->Err_0 == UsageViolation::AlreadySubmitted
                && final(self)@ == old(self)@,
            !old(self)@.submitted ==> r is Ok && r->Ok_0.inner is Some == old(
                self,
            )@.debug_utilities && final(self)@ == if old(self)@.debug_utilities {
                old(self)@.record(CommandView::BeginDebugLabel { label: label@, color })
            } else {
                old(self)@
            },
            r is Ok && r->Ok_0.inner is Some ==> r->Ok_0.inner->Some_0.command_buffer == old(
                self,
            )@.inner,
    {
        if self.has_been_submitted {
            return Err(UsageViolation::AlreadySubmitted);
        }
        if self.debug_utilities {
            let inner = ScopedDebugLabelInner::new(label, color, self);
            Ok(ScopedDebugLabel { inner: Some(inner) })
        } else {
            Ok(ScopedDebugLabel { inner: None })
        }
    }

    /// Records a single debug label, where the device can label.
    pub fn insert_debug_label(&mut self, label: &str, color: [u32; 4]) -> (r: Result<
        (),
        UsageViolation,
    >)
        requires
            old(self).wf(),
        ensures
            final(self).wf(),
            old(self)@.submitted ==> r == Err::<(), UsageViolation>(
                UsageViolation::AlreadySubmitted,
            ) && final(self)@ == old(self)@,
            !old(self)@.submitted ==> r is Ok && final(self)@ == if old(self)@.debug_utilities {
                old(self)@.record(CommandView::InsertDebugLabel { label: label@, color })
            } else {
                old(self)@
            },
    {
        if self.has_been_submitted {
            return Err(UsageViolation::AlreadySubmitted);
        }
        if self.debug_utilities {
            let pass_open = self.render_pass_open;
            self.record(Command::InsertDebugLabel { label: label.to_owned(), color }, pass_open);
        }
        Ok(())
    }
}

} // verus!
