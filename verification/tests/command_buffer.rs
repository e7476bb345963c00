use ash::vk;
use gpu::command::{Command, MemoryBarrier};
use gpu::command_buffer::{
    BufferMemoryBarrier, CommandBuffer, CommandBufferSubmitInfo, ImageMemoryBarrier,
    PipelineBarrierInfo, RecorderState, RenderPassCommand, Submission, UsageViolation,
};
use gpu::allocator::{MemoryAllocation, MemoryDomain};
use gpu::descriptor_set::DescriptorSetAllocation;
use gpu::geometry::{Extent2D, Offset2D, Rect2D, Viewport};
use gpu::gpu::{Gpu, GpuState, GpuThreadLocalState, QueueFamilies, QueueFamily, QueueType};
use gpu::image_format::ImageFormat;
use gpu::render_pass::{
    AttachmentStoreOp, BeginRenderPassInfo, ClearValue, ColorAttachment, ColorLoadOp,
    DepthAttachment, DepthLoadOp, StencilAttachment, StencilLoadOp,
};
use gpu::types::{
    GPUFence, GPUSemaphore, GpuBuffer, GpuDescriptorSet, GpuImage, GpuImageView, Pipeline,
};

fn test_gpu(debug_utilities: bool) -> Gpu {
    let state = GpuState {
        graphics_queue: 11,
        async_compute_queue: 12,
        transfer_queue: 13,
        queue_families: QueueFamilies {
            graphics_family: QueueFamily { index: 0, count: 1 },
            async_compute_family: QueueFamily { index: 1, count: 2 },
            transfer_family: QueueFamily { index: 2, count: 1 },
        },
        debug_utilities,
    };
    let frames = vec![
        GpuThreadLocalState {
            graphics_command_pool: 21,
            compute_command_pool: 22,
            transfer_command_pool: 23,
        },
        GpuThreadLocalState {
            graphics_command_pool: 31,
            compute_command_pool: 32,
            transfer_command_pool: 33,
        },
    ];
    Gpu::new(state, frames).unwrap()
}

fn view(handle: u64) -> GpuImageView {
    GpuImageView::create(handle, ImageFormat::Rgba8, handle + 1000, Extent2D { width: 640, height: 480 })
}

fn area() -> Rect2D {
    Rect2D { offset: Offset2D { x: 5, y: 6 }, extent: Extent2D { width: 640, height: 480 } }
}

fn no_sync<'a>() -> CommandBufferSubmitInfo<'a> {
    CommandBufferSubmitInfo {
        wait_semaphores: &[],
        wait_stages: &[],
        signal_semaphores: &[],
        fence: None,
    }
}

fn buffer(handle: u64) -> GpuBuffer {
    GpuBuffer::create(
        handle,
        MemoryDomain::DeviceLocal,
        MemoryAllocation { offset: 0, size: 64, domain: MemoryDomain::DeviceLocal, persistent_ptr: None },
    )
}

#[test]
fn new_command_buffer_is_recording_on_the_queue_asked_for() {
    let gpu = test_gpu(false);
    let cb = CommandBuffer::new(&gpu, QueueType::AsyncCompute, 77);
    assert_eq!(cb.inner(), 77);
    assert_eq!(cb.state(), RecorderState::Recording);
    assert!(!cb.has_recorded_anything());
}

#[test]
fn submit_without_recording_asks_nothing_of_the_device() {
    let gpu = test_gpu(false);
    let mut cb = CommandBuffer::new(&gpu, QueueType::Graphics, 1);
    let submission = cb.submit(&no_sync()).unwrap();
    assert!(matches!(submission, Submission::Nothing));
    assert_eq!(cb.state(), RecorderState::Submitted);
    assert_eq!(cb.on_drop(), Ok(()));
}

#[test]
fn giving_up_an_unsubmitted_command_buffer_is_a_violation_every_time() {
    let gpu = test_gpu(false);
    let mut cb = CommandBuffer::new(&gpu, QueueType::Graphics, 1);
    assert_eq!(cb.on_drop(), Err(UsageViolation::NeverSubmitted));
    assert_eq!(cb.on_drop(), Err(UsageViolation::NeverSubmitted));
    let views = [view(5)];
    let attachments = [ColorAttachment {
        image_view: &views[0],
        load_op: ColorLoadOp::Load,
        store_op: AttachmentStoreOp::Store,
        initial_layout: vk::ImageLayout::COLOR_ATTACHMENT_OPTIMAL,
    }];
    let info = BeginRenderPassInfo {
        color_attachments: &attachments,
        depth_attachment: None,
        stencil_attachment: None,
        render_area: area(),
    };
    let mut pass = cb.begin_render_pass(&info).unwrap();
    pass.draw(3, 1, 0, 0).unwrap();
    pass.end().unwrap();
    assert_eq!(cb.on_drop(), Err(UsageViolation::NeverSubmitted));
    cb.submit(&no_sync()).unwrap();
    assert_eq!(cb.on_drop(), Ok(()));
}

#[test]
fn default_submit_info_waits_for_nothing() {
    let info = CommandBufferSubmitInfo::default();
    assert!(info.wait_semaphores.is_empty());
    assert!(info.wait_stages.is_empty());
    assert!(info.signal_semaphores.is_empty());
    assert!(info.fence.is_none());
    let gpu = test_gpu(false);
    let mut cb = CommandBuffer::new(&gpu, QueueType::Graphics, 1);
    assert!(matches!(cb.submit(&info), Ok(Submission::Nothing)));
}

#[test]
fn submitting_twice_is_a_violation() {
    let gpu = test_gpu(false);
    let mut cb = CommandBuffer::new(&gpu, QueueType::Graphics, 1);
    cb.submit(&no_sync()).unwrap();
    assert!(matches!(cb.submit(&no_sync()), Err(UsageViolation::AlreadySubmitted)));
}

#[test]
fn draw_outside_a_render_pass_is_rejected() {
    let gpu = test_gpu(false);
    let mut cb = CommandBuffer::new(&gpu, QueueType::Graphics, 1);
    {
        let mut scope = RenderPassCommand {
            command_buffer: &mut cb,
            viewport_area: None,
            scissor_area: None,
            has_draw_command: false,
            render_area: area(),
        };
        assert_eq!(scope.draw(3, 1, 0, 0), Err(UsageViolation::NoRenderPass));
        assert_eq!(scope.draw_indexed(3, 1, 0, 0, 0), Err(UsageViolation::NoRenderPass));
        assert_eq!(
            scope.bind_pipeline(&Pipeline { pipeline: 1, pipeline_layout: 2 }),
            Err(UsageViolation::NoRenderPass)
        );
        assert_eq!(scope.push_constant(&Pipeline { pipeline: 1, pipeline_layout: 2 }, &[1, 2], 0), Err(UsageViolation::NoRenderPass));
        assert!(!scope.has_draw_command);
        assert_eq!(scope.end(), Err(UsageViolation::NoRenderPass));
    }
    assert!(!cb.has_recorded_anything());
    assert_eq!(
        cb.bind_descriptor_sets(
            vk::PipelineBindPoint::GRAPHICS,
            &Pipeline { pipeline: 1, pipeline_layout: 2 },
            0,
            &[],
        ),
        Err(UsageViolation::NoRenderPass)
    );
}

#[test]
fn submit_is_rejected_until_the_render_pass_is_ended() {
    let gpu = test_gpu(false);
    let mut cb = CommandBuffer::new(&gpu, QueueType::Graphics, 1);
    let info = BeginRenderPassInfo {
        color_attachments: &[],
        depth_attachment: None,
        stencil_attachment: None,
        render_area: area(),
    };
    let pass = cb.begin_render_pass(&info).unwrap();
    assert_eq!(pass.command_buffer.state(), RecorderState::RenderPassActive);
    assert!(matches!(
        pass.command_buffer.submit(&no_sync()),
        Err(UsageViolation::RenderPassActive)
    ));
    let barrier = PipelineBarrierInfo {
        src_stage_mask: vk::PipelineStageFlags::TOP_OF_PIPE,
        dst_stage_mask: vk::PipelineStageFlags::BOTTOM_OF_PIPE,
        dependency_flags: vk::DependencyFlags::empty(),
        memory_barriers: &[],
        buffer_memory_barriers: &[],
        image_memory_barriers: &[],
    };
    assert_eq!(pass.command_buffer.pipeline_barrier(&barrier), Err(UsageViolation::RenderPassActive));
    assert!(matches!(
        pass.command_buffer.begin_render_pass(&info),
        Err(UsageViolation::RenderPassActive)
    ));
    pass.end().unwrap();
    assert_eq!(cb.state(), RecorderState::Recording);
    let submission = cb.submit(&no_sync()).unwrap();
    match submission {
        Submission::Queue(q) => {
            assert_eq!(q.commands.len(), 2);
            assert!(matches!(q.commands[0], Command::BeginRendering { .. }));
            assert!(matches!(q.commands[1], Command::EndRendering));
        }
        Submission::Nothing => panic!("a render pass was recorded"),
    }
}

#[test]
fn cleared_render_pass_without_draws_is_submitted_with_its_clear_value() {
    let gpu = test_gpu(false);
    let mut cb = CommandBuffer::new(&gpu, QueueType::Graphics, 9);
    let views = [view(40)];
    let clear = [0.0f32.to_bits(), 0.0f32.to_bits(), 0.0f32.to_bits(), 1.0f32.to_bits()];
    let attachments = [ColorAttachment {
        image_view: &views[0],
        load_op: ColorLoadOp::Clear(clear),
        store_op: AttachmentStoreOp::Store,
        initial_layout: vk::ImageLayout::COLOR_ATTACHMENT_OPTIMAL,
    }];
    let info = BeginRenderPassInfo {
        color_attachments: &attachments,
        depth_attachment: None,
        stencil_attachment: None,
        render_area: area(),
    };
    let pass = cb.begin_render_pass(&info).unwrap();
    assert!(!pass.has_draw_command);
    pass.end().unwrap();
    let submission = cb.submit(&no_sync()).unwrap();
    let q = match submission {
        Submission::Queue(q) => q,
        Submission::Nothing => panic!("the clear has to reach the device"),
    };
    assert_eq!(q.queue, 11);
    assert_eq!(q.command_buffer, 9);
    assert!(q.wait_semaphores.is_empty());
    assert!(q.signal_semaphores.is_empty());
    assert_eq!(q.fence, None);
    assert_eq!(q.commands.len(), 2);
    match &q.commands[0] {
        Command::BeginRendering {
            color_attachments,
            depth_attachment,
            stencil_attachment,
            render_area,
        } => {
            assert_eq!(color_attachments.len(), 1);
            let a = &color_attachments[0];
            assert_eq!(a.image_view, 40);
            assert_eq!(a.image_layout, vk::ImageLayout::COLOR_ATTACHMENT_OPTIMAL);
            assert_eq!(a.load_op, vk::AttachmentLoadOp::CLEAR);
            assert_eq!(a.store_op, vk::AttachmentStoreOp::STORE.as_raw());
            match a.clear_value {
                ClearValue::Color(c) => {
                    assert_eq!(f32::from_bits(c[0]), 0.0);
                    assert_eq!(f32::from_bits(c[1]), 0.0);
                    assert_eq!(f32::from_bits(c[2]), 0.0);
                    assert_eq!(f32::from_bits(c[3]), 1.0);
                }
                _ => panic!("a colour clear was asked for"),
            }
            assert!(depth_attachment.is_none());
            assert!(stencil_attachment.is_none());
            assert_eq!(*render_area, area());
        }
        _ => panic!("the stream begins with the render pass"),
    }
    assert!(matches!(q.commands[1], Command::EndRendering));
}

#[test]
fn depth_and_stencil_attachments_carry_their_clear_values() {
    let gpu = test_gpu(false);
    let mut cb = CommandBuffer::new(&gpu, QueueType::Graphics, 9);
    let views = [view(1), view(2), view(3)];
    let attachments = [ColorAttachment {
        image_view: &views[0],
        load_op: ColorLoadOp::DontCare,
        store_op: AttachmentStoreOp::DontCare,
        initial_layout: vk::ImageLayout::GENERAL,
    }];
    let info = BeginRenderPassInfo {
        color_attachments: &attachments,
        depth_attachment: Some(DepthAttachment {
            image_view: &views[1],
            load_op: DepthLoadOp::Clear(0.5f32.to_bits()),
            store_op: AttachmentStoreOp::Store,
            initial_layout: vk::ImageLayout::DEPTH_STENCIL_ATTACHMENT_OPTIMAL,
        }),
        stencil_attachment: Some(StencilAttachment {
            image_view: &views[2],
            load_op: StencilLoadOp::Clear(7),
            store_op: AttachmentStoreOp::DontCare,
            initial_layout: vk::ImageLayout::DEPTH_STENCIL_ATTACHMENT_OPTIMAL,
        }),
        render_area: area(),
    };
    cb.begin_render_pass(&info).unwrap().end().unwrap();
    let q = match cb.submit(&no_sync()).unwrap() {
        Submission::Queue(q) => q,
        Submission::Nothing => panic!("a render pass was recorded"),
    };
    match &q.commands[0] {
        Command::BeginRendering { color_attachments, depth_attachment, stencil_attachment, .. } => {
            assert_eq!(color_attachments[0].load_op, vk::AttachmentLoadOp::DONT_CARE);
            assert_eq!(color_attachments[0].store_op, vk::AttachmentStoreOp::DONT_CARE.as_raw());
            assert!(matches!(color_attachments[0].clear_value, ClearValue::Zero));
            let d = depth_attachment.unwrap();
            assert_eq!(d.image_view, 2);
            assert_eq!(d.load_op, vk::AttachmentLoadOp::CLEAR);
            match d.clear_value {
                ClearValue::DepthStencil { depth, stencil } => {
                    assert_eq!(f32::from_bits(depth), 0.5);
                    assert_eq!(stencil, 255);
                }
                _ => panic!("a depth clear was asked for"),
            }
            let s = stencil_attachment.unwrap();
            assert_eq!(s.image_view, 3);
            match s.clear_value {
                ClearValue::DepthStencil { depth, stencil } => {
                    assert_eq!(f32::from_bits(depth), 0.0);
                    assert_eq!(stencil, 7);
                }
                _ => panic!("a stencil clear was asked for"),
            }
        }
        _ => panic!("the stream begins with the render pass"),
    }
}

#[test]
fn draw_sets_the_full_render_area_viewport_and_scissor_first() {
    let gpu = test_gpu(false);
    let mut cb = CommandBuffer::new(&gpu, QueueType::Graphics, 9);
    let info = BeginRenderPassInfo {
        color_attachments: &[],
        depth_attachment: None,
        stencil_attachment: None,
        render_area: area(),
    };
    let mut pass = cb.begin_render_pass(&info).unwrap();
    pass.draw(3, 2, 1, 4).unwrap();
    assert!(pass.has_draw_command);
    pass.set_viewport(Viewport { x: 1, y: 2, width: 30, height: 40 });
    pass.set_scissor(Rect2D { offset: Offset2D { x: 1, y: 1 }, extent: Extent2D { width: 2, height: 2 } });
    pass.draw_indexed(6, 1, 0, -2, 0).unwrap();
    pass.end().unwrap();
    let q = match cb.submit(&no_sync()).unwrap() {
        Submission::Queue(q) => q,
        Submission::Nothing => panic!("draws were recorded"),
    };
    assert_eq!(q.commands.len(), 8);
    match &q.commands[1] {
        Command::SetViewport { viewport } => {
            assert_eq!(*viewport, Viewport { x: 0, y: 480, width: 640, height: -480 })
        }
        _ => panic!("viewport first"),
    }
    match &q.commands[2] {
        Command::SetScissor { scissor } => assert_eq!(
            *scissor,
            Rect2D { offset: Offset2D { x: 0, y: 0 }, extent: Extent2D { width: 640, height: 480 } }
        ),
        _ => panic!("scissor second"),
    }
    assert!(matches!(
        q.commands[3],
        Command::Draw { vertex_count: 3, instance_count: 2, first_vertex: 1, first_instance: 4 }
    ));
    match &q.commands[4] {
        Command::SetViewport { viewport } => {
            assert_eq!(*viewport, Viewport { x: 1, y: 2, width: 30, height: 40 })
        }
        _ => panic!("viewport first"),
    }
    assert!(matches!(q.commands[5], Command::SetScissor { .. }));
    assert!(matches!(
        q.commands[6],
        Command::DrawIndexed {
            index_count: 6,
            instance_count: 1,
            first_index: 0,
            vertex_offset: -2,
            first_instance: 0
        }
    ));
    assert!(matches!(q.commands[7], Command::EndRendering));
}

#[test]
fn binds_and_push_constants_are_recorded_with_native_handles() {
    let gpu = test_gpu(false);
    let mut cb = CommandBuffer::new(&gpu, QueueType::Graphics, 9);
    let info = BeginRenderPassInfo {
        color_attachments: &[],
        depth_attachment: None,
        stencil_attachment: None,
        render_area: area(),
    };
    let pipeline = Pipeline { pipeline: 100, pipeline_layout: 200 };
    let b1 = buffer(301);
    let b2 = buffer(302);
    let set = GpuDescriptorSet::create(DescriptorSetAllocation { descriptor_set: 400, pool_index: 0, slot: 3 });
    let mut pass = cb.begin_render_pass(&info).unwrap();
    pass.bind_pipeline(&pipeline).unwrap();
    pass.bind_descriptor_sets(vk::PipelineBindPoint::GRAPHICS, &pipeline, 1, &[&set]).unwrap();
    pass.bind_index_buffer(&b1, 16, vk::IndexType::UINT32).unwrap();
    assert_eq!(
        pass.bind_vertex_buffer(0, &[&b1, &b2], &[0]),
        Err(UsageViolation::VertexBufferOffsetMismatch)
    );
    pass.bind_vertex_buffer(2, &[&b1, &b2], &[0, 8]).unwrap();
    pass.push_constant(&pipeline, &[1, 2, 3, 4], 12).unwrap();
    pass.end().unwrap();
    let q = match cb.submit(&no_sync()).unwrap() {
        Submission::Queue(q) => q,
        Submission::Nothing => panic!("binds were recorded"),
    };
    assert_eq!(q.commands.len(), 7);
    assert!(matches!(q.commands[1], Command::BindPipeline { pipeline: 100 }));
    match &q.commands[2] {
        Command::BindDescriptorSets { bind_point, pipeline_layout, first_index, descriptor_sets } => {
            assert_eq!(*bind_point, vk::PipelineBindPoint::GRAPHICS);
            assert_eq!(*pipeline_layout, 200);
            assert_eq!(*first_index, 1);
            assert_eq!(descriptor_sets, &vec![400]);
        }
        _ => panic!("descriptor sets"),
    }
    match &q.commands[3] {
        Command::BindIndexBuffer { buffer, offset, index_type } => {
            assert_eq!((*buffer, *offset), (301, 16));
            assert_eq!(*index_type, vk::IndexType::UINT32);
        }
        _ => panic!("index buffer"),
    }
    match &q.commands[4] {
        Command::BindVertexBuffers { first_binding, buffers, offsets } => {
            assert_eq!(*first_binding, 2);
            assert_eq!(buffers, &vec![301, 302]);
            assert_eq!(offsets, &vec![0, 8]);
        }
        _ => panic!("vertex buffers"),
    }
    match &q.commands[5] {
        Command::PushConstants { pipeline_layout, offset, data } => {
            assert_eq!((*pipeline_layout, *offset), (200, 12));
            assert_eq!(data, &vec![1u8, 2, 3, 4]);
        }
        _ => panic!("push constants"),
    }
}

#[test]
fn pipeline_barrier_is_recorded_with_resolved_resources() {
    let gpu = test_gpu(false);
    let mut cb = CommandBuffer::new(&gpu, QueueType::Transfer, 9);
    let b = buffer(55);
    let image = GpuImage::wrap(66, Extent2D { width: 4, height: 4 }, ImageFormat::Bgra8);
    let range = vk::ImageSubresourceRange {
        aspect_mask: vk::ImageAspectFlags::COLOR,
        base_mip_level: 0,
        level_count: 1,
        base_array_layer: 0,
        layer_count: 1,
    };
    let memory = [MemoryBarrier {
        src_access_mask: vk::AccessFlags::TRANSFER_WRITE,
        dst_access_mask: vk::AccessFlags::SHADER_READ,
    }];
    let buffers = [BufferMemoryBarrier {
        src_access_mask: vk::AccessFlags::TRANSFER_WRITE,
        dst_access_mask: vk::AccessFlags::UNIFORM_READ,
        src_queue_family_index: 2,
        dst_queue_family_index: 0,
        buffer: &b,
        offset: 4,
        size: 32,
    }];
    let images = [ImageMemoryBarrier {
        src_access_mask: vk::AccessFlags::empty(),
        dst_access_mask: vk::AccessFlags::TRANSFER_WRITE,
        old_layout: vk::ImageLayout::UNDEFINED,
        new_layout: vk::ImageLayout::TRANSFER_DST_OPTIMAL,
        src_queue_family_index: vk::QUEUE_FAMILY_IGNORED,
        dst_queue_family_index: vk::QUEUE_FAMILY_IGNORED,
        image: &image,
        subresource_range: range,
    }];
    let info = PipelineBarrierInfo {
        src_stage_mask: vk::PipelineStageFlags::TRANSFER,
        dst_stage_mask: vk::PipelineStageFlags::FRAGMENT_SHADER,
        dependency_flags: vk::DependencyFlags::BY_REGION,
        memory_barriers: &memory,
        buffer_memory_barriers: &buffers,
        image_memory_barriers: &images,
    };
    cb.pipeline_barrier(&info).unwrap();
    assert!(cb.has_recorded_anything());
    let q = match cb.submit(&no_sync()).unwrap() {
        Submission::Queue(q) => q,
        Submission::Nothing => panic!("a barrier was recorded"),
    };
    assert_eq!(q.queue, 13);
    match &q.commands[0] {
        Command::PipelineBarrier {
            src_stage_mask,
            dst_stage_mask,
            dependency_flags,
            memory_barriers,
            buffer_memory_barriers,
            image_memory_barriers,
        } => {
            assert_eq!(*src_stage_mask, vk::PipelineStageFlags::TRANSFER);
            assert_eq!(*dst_stage_mask, vk::PipelineStageFlags::FRAGMENT_SHADER);
            assert_eq!(*dependency_flags, vk::DependencyFlags::BY_REGION);
            assert_eq!(memory_barriers.len(), 1);
            assert_eq!(memory_barriers[0].dst_access_mask, vk::AccessFlags::SHADER_READ);
            assert_eq!(buffer_memory_barriers.len(), 1);
            assert_eq!(buffer_memory_barriers[0].buffer, 55);
            assert_eq!(buffer_memory_barriers[0].offset, 4);
            assert_eq!(buffer_memory_barriers[0].size, 32);
            assert_eq!(buffer_memory_barriers[0].src_queue_family_index, 2);
            assert_eq!(image_memory_barriers.len(), 1);
            assert_eq!(image_memory_barriers[0].image, 66);
            assert_eq!(image_memory_barriers[0].new_layout, vk::ImageLayout::TRANSFER_DST_OPTIMAL);
            assert_eq!(image_memory_barriers[0].subresource_range.layer_count, 1);
        }
        _ => panic!("a barrier was recorded"),
    }
}

#[test]
fn submission_carries_semaphores_stages_and_fence() {
    let gpu = test_gpu(false);
    let mut cb = CommandBuffer::new(&gpu, QueueType::Graphics, 9);
    let info = BeginRenderPassInfo {
        color_attachments: &[],
        depth_attachment: None,
        stencil_attachment: None,
        render_area: area(),
    };
    cb.begin_render_pass(&info).unwrap().end().unwrap();
    let wait = GPUSemaphore { inner: 1 };
    let wait2 = GPUSemaphore { inner: 2 };
    let signal = GPUSemaphore { inner: 3 };
    let fence = GPUFence { inner: 4 };
    let mismatched = CommandBufferSubmitInfo {
        wait_semaphores: &[&wait, &wait2],
        wait_stages: &[vk::PipelineStageFlags::COLOR_ATTACHMENT_OUTPUT],
        signal_semaphores: &[&signal],
        fence: Some(&fence),
    };
    assert!(matches!(cb.submit(&mismatched), Err(UsageViolation::WaitStageCountMismatch)));
    assert_eq!(cb.state(), RecorderState::Recording);
    let good = CommandBufferSubmitInfo {
        wait_semaphores: &[&wait, &wait2],
        wait_stages: &[
            vk::PipelineStageFlags::COLOR_ATTACHMENT_OUTPUT,
            vk::PipelineStageFlags::TRANSFER,
        ],
        signal_semaphores: &[&signal],
        fence: Some(&fence),
    };
    let q = match cb.submit(&good).unwrap() {
        Submission::Queue(q) => q,
        Submission::Nothing => panic!("a render pass was recorded"),
    };
    assert_eq!(q.wait_semaphores, vec![1, 2]);
    assert_eq!(
        q.wait_stages,
        vec![vk::PipelineStageFlags::COLOR_ATTACHMENT_OUTPUT, vk::PipelineStageFlags::TRANSFER]
    );
    assert_eq!(q.signal_semaphores, vec![3]);
    assert_eq!(q.fence, Some(4));
}

#[test]
fn recording_after_submit_is_a_violation() {
    let gpu = test_gpu(true);
    let mut cb = CommandBuffer::new(&gpu, QueueType::Graphics, 9);
    cb.submit(&no_sync()).unwrap();
    let info = BeginRenderPassInfo {
        color_attachments: &[],
        depth_attachment: None,
        stencil_attachment: None,
        render_area: area(),
    };
    assert!(matches!(cb.begin_render_pass(&info), Err(UsageViolation::AlreadySubmitted)));
    assert_eq!(cb.insert_debug_label("late", [0; 4]), Err(UsageViolation::AlreadySubmitted));
    assert!(matches!(cb.begin_debug_region("late", [0; 4]), Err(UsageViolation::AlreadySubmitted)));
}

#[test]
fn debug_labels_are_recorded_only_where_the_device_labels() {
    let labelling = test_gpu(true);
    let mut cb = CommandBuffer::new(&labelling, QueueType::Graphics, 9);
    let region = cb.begin_debug_region("shadow pass", [ONE_BITS, 0, 0, ONE_BITS]).unwrap();
    assert_eq!(region.inner.as_ref().map(|i| i.command_buffer), Some(9));
    cb.insert_debug_label("marker", [0; 4]).unwrap();
    region.end(&mut cb).unwrap();
    let q = match cb.submit(&no_sync()).unwrap() {
        Submission::Queue(q) => q,
        Submission::Nothing => panic!("labels were recorded"),
    };
    assert_eq!(q.commands.len(), 3);
    match &q.commands[0] {
        Command::BeginDebugLabel { label, color } => {
            assert_eq!(label, "shadow pass");
            assert_eq!(f32::from_bits(color[0]), 1.0);
        }
        _ => panic!("region begins"),
    }
    assert!(matches!(q.commands[1], Command::InsertDebugLabel { .. }));
    assert!(matches!(q.commands[2], Command::EndDebugLabel));

    let silent = test_gpu(false);
    let mut cb = CommandBuffer::new(&silent, QueueType::Graphics, 9);
    let region = cb.begin_debug_region("shadow pass", [0; 4]).unwrap();
    assert!(region.inner.is_none());
    cb.insert_debug_label("marker", [0; 4]).unwrap();
    region.end(&mut cb).unwrap();
    assert!(!cb.has_recorded_anything());
    assert!(matches!(cb.submit(&no_sync()).unwrap(), Submission::Nothing));
}

const ONE_BITS: u32 = 0x3f80_0000;
