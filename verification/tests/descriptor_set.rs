use ash::vk;
use gpu::allocator::{MemoryAllocation, MemoryDomain};
use gpu::descriptor_set::{
    BufferRange, DescriptorInfo, DescriptorKind, DescriptorSetAllocation, DescriptorSetAllocator,
    DescriptorSetError, DescriptorSetInfo, DescriptorSetSlot, DescriptorType, PoolShape,
    SamplerState, ShaderStage,
};
use gpu::geometry::Extent2D;
use gpu::image_format::ImageFormat;
use gpu::types::{GpuBuffer, GpuDescriptorSet, GpuImageView, GpuSampler};

fn buffer() -> GpuBuffer {
    GpuBuffer::create(
        1,
        MemoryDomain::DeviceLocal,
        MemoryAllocation { offset: 0, size: 64, domain: MemoryDomain::DeviceLocal, persistent_ptr: None },
    )
}

fn image_view() -> GpuImageView {
    GpuImageView::create(2, ImageFormat::Rgba8, 3, Extent2D { width: 1, height: 1 })
}

fn uniform<'a>(binding: u32, b: &'a GpuBuffer) -> DescriptorInfo<'a> {
    DescriptorInfo {
        binding,
        element_type: DescriptorType::UniformBuffer(BufferRange { handle: b, offset: 0, size: 64 }),
        binding_stage: ShaderStage::Vertex,
    }
}

fn sampler<'a>(binding: u32, s: &'a GpuSampler, v: &'a GpuImageView) -> DescriptorInfo<'a> {
    DescriptorInfo {
        binding,
        element_type: DescriptorType::Sampler(SamplerState {
            sampler: s,
            image_view: v,
            image_layout: vk::ImageLayout::SHADER_READ_ONLY_OPTIMAL,
        }),
        binding_stage: ShaderStage::Fragment,
    }
}

#[test]
fn ninth_set_goes_to_a_second_pool_page() {
    let b = buffer();
    let s = GpuSampler { inner: 4 };
    let v = image_view();
    let descriptors = [uniform(0, &b), sampler(1, &s, &v)];
    let info = DescriptorSetInfo { descriptors: &descriptors };
    let shape = PoolShape { uniform_buffers: 1, storage_buffers: 0, samplers: 1, combined_image_samplers: 0 };
    assert_eq!(info.shape(), shape);
    let mut allocator = DescriptorSetAllocator::new(8, 4).unwrap();
    assert_eq!(allocator.pool_count(), 0);
    for i in 0..8 {
        let place = allocator.allocate(&info).unwrap();
        assert_eq!(place, DescriptorSetSlot { pool_index: 0, slot: i, new_pool: i == 0, shape });
        assert_eq!(allocator.pool_count(), 1);
    }
    let ninth = allocator.allocate(&info).unwrap();
    assert_eq!(ninth, DescriptorSetSlot { pool_index: 1, slot: 0, new_pool: true, shape });
    assert_eq!(allocator.pool_count(), 2);
}

#[test]
fn freed_set_is_reused_in_its_own_page() {
    let b = buffer();
    let descriptors = [uniform(0, &b)];
    let info = DescriptorSetInfo { descriptors: &descriptors };
    let mut allocator = DescriptorSetAllocator::new(2, 4).unwrap();
    let a0 = allocator.allocate(&info).unwrap();
    let a1 = allocator.allocate(&info).unwrap();
    let a2 = allocator.allocate(&info).unwrap();
    assert_eq!((a0.pool_index, a0.slot), (0, 0));
    assert_eq!((a1.pool_index, a1.slot), (0, 1));
    assert_eq!((a2.pool_index, a2.slot, a2.new_pool), (1, 0, true));
    let set = GpuDescriptorSet::create(DescriptorSetAllocation {
        descriptor_set: 900,
        pool_index: a1.pool_index,
        slot: a1.slot,
    });
    assert_eq!(set.destroy(&mut allocator), Ok(900));
    let again = allocator.allocate(&info).unwrap();
    assert_eq!((again.pool_index, again.slot, again.new_pool), (0, 1, false));
    assert_eq!(allocator.pool_count(), 2);
}

#[test]
fn sets_of_another_shape_get_their_own_page() {
    let b = buffer();
    let s = GpuSampler { inner: 4 };
    let v = image_view();
    let one = [uniform(0, &b)];
    let two = [uniform(0, &b), sampler(1, &s, &v)];
    let mut allocator = DescriptorSetAllocator::new(4, 4).unwrap();
    let first = allocator.allocate(&DescriptorSetInfo { descriptors: &one }).unwrap();
    let second = allocator.allocate(&DescriptorSetInfo { descriptors: &two }).unwrap();
    let third = allocator.allocate(&DescriptorSetInfo { descriptors: &one }).unwrap();
    assert_eq!((first.pool_index, first.slot), (0, 0));
    assert_eq!((second.pool_index, second.slot, second.new_pool), (1, 0, true));
    assert_eq!((third.pool_index, third.slot, third.new_pool), (0, 1, false));
}

#[test]
fn bindings_have_to_be_contiguous() {
    let b = buffer();
    let mut allocator = DescriptorSetAllocator::new(4, 4).unwrap();
    let gap = [uniform(0, &b), uniform(2, &b)];
    let info = DescriptorSetInfo { descriptors: &gap };
    assert!(!info.has_contiguous_bindings());
    assert_eq!(allocator.allocate(&info), Err(DescriptorSetError::NonContiguousBindings));
    let from_one = [uniform(1, &b)];
    assert_eq!(
        allocator.allocate(&DescriptorSetInfo { descriptors: &from_one }),
        Err(DescriptorSetError::NonContiguousBindings)
    );
    assert_eq!(allocator.pool_count(), 0);
    let good = [uniform(0, &b), uniform(1, &b), uniform(2, &b)];
    assert!(DescriptorSetInfo { descriptors: &good }.has_contiguous_bindings());
    assert!(allocator.allocate(&DescriptorSetInfo { descriptors: &good }).is_ok());
}

#[test]
fn pools_do_not_grow_beyond_their_limit() {
    let b = buffer();
    let descriptors = [uniform(0, &b)];
    let info = DescriptorSetInfo { descriptors: &descriptors };
    let mut allocator = DescriptorSetAllocator::new(1, 2).unwrap();
    allocator.allocate(&info).unwrap();
    allocator.allocate(&info).unwrap();
    assert_eq!(allocator.allocate(&info), Err(DescriptorSetError::OutOfPoolMemory));
    assert!(DescriptorSetAllocator::new(0, 2).is_none());
}

#[test]
fn giving_back_an_unknown_set_is_refused() {
    let b = buffer();
    let descriptors = [uniform(0, &b)];
    let info = DescriptorSetInfo { descriptors: &descriptors };
    let mut allocator = DescriptorSetAllocator::new(2, 2).unwrap();
    let place = allocator.allocate(&info).unwrap();
    let known = DescriptorSetAllocation { descriptor_set: 1, pool_index: place.pool_index, slot: place.slot };
    for unknown in [
        DescriptorSetAllocation { descriptor_set: 1, pool_index: 1, slot: 0 },
        DescriptorSetAllocation { descriptor_set: 1, pool_index: 0, slot: 1 },
        DescriptorSetAllocation { descriptor_set: 1, pool_index: 0, slot: 2 },
    ] {
        assert_eq!(allocator.deallocate(&unknown), Err(DescriptorSetError::NotAllocated));
    }
    assert_eq!(allocator.deallocate(&known), Ok(()));
    assert_eq!(allocator.deallocate(&known), Err(DescriptorSetError::NotAllocated));
}

#[test]
fn shape_counts_each_kind() {
    let b = buffer();
    let s = GpuSampler { inner: 4 };
    let v = image_view();
    let state = SamplerState { sampler: &s, image_view: &v, image_layout: vk::ImageLayout::GENERAL };
    let range = BufferRange { handle: &b, offset: 0, size: 8 };
    let kinds = [
        DescriptorType::StorageBuffer(range),
        DescriptorType::CombinedImageSampler(state),
        DescriptorType::UniformBuffer(range),
        DescriptorType::CombinedImageSampler(state),
        DescriptorType::Sampler(state),
        DescriptorType::CombinedImageSampler(state),
    ];
    assert_eq!(kinds[0].kind(), DescriptorKind::StorageBuffer);
    assert_eq!(kinds[4].kind(), DescriptorKind::Sampler);
    let descriptors: Vec<DescriptorInfo> = kinds
        .iter()
        .enumerate()
        .map(|(i, k)| DescriptorInfo { binding: i as u32, element_type: *k, binding_stage: ShaderStage::All })
        .collect();
    let info = DescriptorSetInfo { descriptors: &descriptors };
    assert_eq!(
        info.shape(),
        PoolShape { uniform_buffers: 1, storage_buffers: 1, samplers: 1, combined_image_samplers: 3 }
    );
    assert_eq!(
        DescriptorSetInfo { descriptors: &[] }.shape(),
        PoolShape { uniform_buffers: 0, storage_buffers: 0, samplers: 0, combined_image_samplers: 0 }
    );
}

#[test]
fn descriptor_sets_are_the_same_by_native_handle() {
    let a = GpuDescriptorSet::create(DescriptorSetAllocation { descriptor_set: 5, pool_index: 0, slot: 0 });
    let b = GpuDescriptorSet::create(DescriptorSetAllocation { descriptor_set: 5, pool_index: 1, slot: 3 });
    let c = GpuDescriptorSet::create(DescriptorSetAllocation { descriptor_set: 6, pool_index: 0, slot: 0 });
    assert_eq!(a.inner, 5);
    assert!(a.same_set(&b));
    assert!(!a.same_set(&c));
}
