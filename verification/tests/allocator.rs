use gpu::allocator::{
    AllocationError, AllocatorConfig, DomainHeap, MemoryAllocation, MemoryAllocator, MemoryDomain,
};
use gpu::types::{BufferWriteError, GpuBuffer, GpuImage, HostWrite};
use gpu::geometry::Extent2D;
use gpu::image_format::ImageFormat;

fn config() -> AllocatorConfig {
    AllocatorConfig {
        device_local_capacity: 4096,
        host_visible_capacity: 1024,
        host_visible_mapped_at: 0x10_0000,
        host_coherent_capacity: 512,
        host_coherent_mapped_at: 0x20_0000,
    }
}

#[test]
fn new_allocator_is_all_free() {
    let a = MemoryAllocator::new(config()).unwrap();
    assert_eq!(a.free_capacity(MemoryDomain::DeviceLocal), 4096);
    assert_eq!(a.free_capacity(MemoryDomain::HostVisible), 1024);
    assert_eq!(a.free_capacity(MemoryDomain::HostCoherent), 512);
}

#[test]
fn mapping_behind_the_address_space_is_refused() {
    let mut c = config();
    c.host_visible_mapped_at = u64::MAX - 10;
    assert!(MemoryAllocator::new(c).is_none());
    assert!(DomainHeap::new(11, Some(u64::MAX - 10)).is_none());
    assert!(DomainHeap::new(10, Some(u64::MAX - 10)).is_some());
}

#[test]
fn allocation_is_first_fit_and_aligned() {
    let mut a = MemoryAllocator::new(config()).unwrap();
    let x = a.allocate(100, 1, MemoryDomain::DeviceLocal).unwrap();
    assert_eq!(
        x,
        MemoryAllocation { offset: 0, size: 100, domain: MemoryDomain::DeviceLocal, persistent_ptr: None }
    );
    let y = a.allocate(50, 64, MemoryDomain::DeviceLocal).unwrap();
    assert_eq!(y.offset, 128);
    assert_eq!(y.offset % 64, 0);
    assert_eq!(a.free_capacity(MemoryDomain::DeviceLocal), 4096 - 150);
    // the padding between 100 and 128 stays free and is handed out next
    let z = a.allocate(28, 0, MemoryDomain::DeviceLocal).unwrap();
    assert_eq!(z.offset, 100);
    assert_eq!(a.free_capacity(MemoryDomain::HostVisible), 1024);
}

#[test]
fn host_visible_allocations_carry_their_address() {
    let mut a = MemoryAllocator::new(config()).unwrap();
    let first = a.allocate(16, 16, MemoryDomain::HostVisible).unwrap();
    let second = a.allocate(16, 16, MemoryDomain::HostVisible).unwrap();
    assert_eq!(first.persistent_ptr, Some(0x10_0000));
    assert_eq!(second.persistent_ptr, Some(0x10_0010));
    let coherent = a.allocate(8, 256, MemoryDomain::HostCoherent).unwrap();
    assert_eq!(coherent.persistent_ptr, Some(0x20_0000));
    assert!(MemoryDomain::HostCoherent.is_host_visible());
    assert!(!MemoryDomain::DeviceLocal.is_host_visible());
}

#[test]
fn exhaustion_and_empty_requests_are_errors() {
    let mut a = MemoryAllocator::new(config()).unwrap();
    assert_eq!(a.allocate(0, 1, MemoryDomain::DeviceLocal), Err(AllocationError::EmptyAllocation));
    assert_eq!(a.allocate(513, 1, MemoryDomain::HostCoherent), Err(AllocationError::OutOfMemory));
    a.allocate(512, 1, MemoryDomain::HostCoherent).unwrap();
    assert_eq!(a.allocate(1, 1, MemoryDomain::HostCoherent), Err(AllocationError::OutOfMemory));
    assert_eq!(a.free_capacity(MemoryDomain::HostCoherent), 0);
}

#[test]
fn deallocating_what_is_not_allocated_is_refused() {
    let mut a = MemoryAllocator::new(config()).unwrap();
    let x = a.allocate(64, 1, MemoryDomain::DeviceLocal).unwrap();
    let foreign = MemoryAllocation { offset: 64, size: 64, domain: MemoryDomain::DeviceLocal, persistent_ptr: None };
    assert_eq!(a.deallocate(&foreign), Err(AllocationError::NotAllocated));
    let wrong_domain = MemoryAllocation { domain: MemoryDomain::HostVisible, ..x };
    assert_eq!(a.deallocate(&wrong_domain), Err(AllocationError::NotAllocated));
    assert_eq!(a.deallocate(&x), Ok(()));
    assert_eq!(a.deallocate(&x), Err(AllocationError::NotAllocated));
    assert_eq!(a.free_capacity(MemoryDomain::DeviceLocal), 4096);
}

#[test]
fn round_trip_restores_free_capacity_in_any_order() {
    let mut a = MemoryAllocator::new(config()).unwrap();
    let before = a.free_capacity(MemoryDomain::DeviceLocal);
    let sizes = [100u64, 7, 512, 33, 64, 1, 900];
    let aligns = [1u64, 16, 256, 4, 64, 0, 8];
    let mut live = Vec::new();
    for i in 0..sizes.len() {
        live.push(a.allocate(sizes[i], aligns[i], MemoryDomain::DeviceLocal).unwrap());
    }
    assert_eq!(a.free_capacity(MemoryDomain::DeviceLocal), before - sizes.iter().sum::<u64>());
    for i in [3usize, 0, 6, 1, 5, 2, 4] {
        a.deallocate(&live[i]).unwrap();
    }
    assert_eq!(a.free_capacity(MemoryDomain::DeviceLocal), before);
    // free neighbours were made one again: the whole heap can be handed out
    let whole = a.allocate(4096, 1, MemoryDomain::DeviceLocal).unwrap();
    assert_eq!(whole.offset, 0);
}

#[test]
fn interleaved_pairs_restore_free_capacity() {
    let mut a = MemoryAllocator::new(config()).unwrap();
    let before = a.free_capacity(MemoryDomain::HostVisible);
    let x = a.allocate(256, 256, MemoryDomain::HostVisible).unwrap();
    let y = a.allocate(100, 1, MemoryDomain::HostVisible).unwrap();
    a.deallocate(&x).unwrap();
    let z = a.allocate(300, 4, MemoryDomain::HostVisible).unwrap();
    let w = a.allocate(200, 1, MemoryDomain::HostVisible).unwrap();
    assert_eq!(w.offset, 0);
    a.deallocate(&y).unwrap();
    a.deallocate(&w).unwrap();
    a.deallocate(&z).unwrap();
    assert_eq!(a.free_capacity(MemoryDomain::HostVisible), before);
}

#[test]
fn host_visible_buffer_write_reads_back_equal() {
    let mut a = MemoryAllocator::new(config()).unwrap();
    // something before the buffer, so that it does not start at the mapping
    a.allocate(64, 1, MemoryDomain::HostVisible).unwrap();
    let allocation = a.allocate(256, 64, MemoryDomain::HostVisible).unwrap();
    let buffer = GpuBuffer::create(9, MemoryDomain::HostVisible, allocation);
    let data: Vec<u8> = (0..=255u8).collect();
    let plan = buffer.write_data(0, &data).unwrap();
    assert_eq!(plan, HostWrite { base: 0x10_0000 + 64, offset: 0, length: 256 });
    // the mapped memory of the domain, as the host sees it
    let mut mapped = vec![0u8; 1024];
    let at = (plan.base - 0x10_0000 + plan.offset) as usize;
    mapped[at..at + plan.length as usize].copy_from_slice(&data);
    let read = &mapped[(allocation.offset as usize)..(allocation.offset + allocation.size) as usize];
    assert_eq!(read, &data[..]);
}

#[test]
fn buffer_writes_are_checked_against_the_buffer() {
    let mapped = GpuBuffer::create(
        1,
        MemoryDomain::HostVisible,
        MemoryAllocation { offset: 0, size: 16, domain: MemoryDomain::HostVisible, persistent_ptr: Some(1000) },
    );
    assert_eq!(mapped.write_data(0, &[]), Err(BufferWriteError::EmptyData));
    assert_eq!(mapped.write_data(16, &[1]), Err(BufferWriteError::OffsetOutOfRange));
    assert_eq!(mapped.write_data(15, &[1, 2]), Err(BufferWriteError::TooLong));
    assert_eq!(mapped.write_data(15, &[1]), Ok(HostWrite { base: 1000, offset: 15, length: 1 }));
    assert_eq!(mapped.write_data(4, &[0; 12]), Ok(HostWrite { base: 1000, offset: 4, length: 12 }));
    let unmapped = GpuBuffer::create(
        2,
        MemoryDomain::DeviceLocal,
        MemoryAllocation { offset: 0, size: 16, domain: MemoryDomain::DeviceLocal, persistent_ptr: None },
    );
    assert_eq!(unmapped.write_data(0, &[1]), Err(BufferWriteError::NotMapped));
}

#[test]
fn destroying_a_buffer_gives_its_memory_back_first() {
    let mut a = MemoryAllocator::new(config()).unwrap();
    let allocation = a.allocate(128, 1, MemoryDomain::DeviceLocal).unwrap();
    let buffer = GpuBuffer::create(42, MemoryDomain::DeviceLocal, allocation);
    assert_eq!(a.free_capacity(MemoryDomain::DeviceLocal), 4096 - 128);
    assert_eq!(buffer.destroy(&mut a), Ok(42));
    assert_eq!(a.free_capacity(MemoryDomain::DeviceLocal), 4096);
    let stray = GpuBuffer::create(43, MemoryDomain::DeviceLocal, allocation);
    assert_eq!(stray.destroy(&mut a), Err(AllocationError::NotAllocated));
}

#[test]
fn destroying_images_frees_owned_memory_only() {
    let mut a = MemoryAllocator::new(config()).unwrap();
    let allocation = a.allocate(1000, 256, MemoryDomain::DeviceLocal).unwrap();
    let e = Extent2D { width: 10, height: 25 };
    let owned = GpuImage::create(7, allocation, e, ImageFormat::Rgba8);
    assert_eq!(owned.format(), ImageFormat::Rgba8);
    assert_eq!(owned.extents(), e);
    let wrapped = GpuImage::wrap(8, e, ImageFormat::Bgra8);
    assert!(wrapped.allocation.is_none());
    assert_eq!(wrapped.destroy(&mut a), Ok(None));
    assert_eq!(a.free_capacity(MemoryDomain::DeviceLocal), 4096 - 1000);
    assert_eq!(owned.destroy(&mut a), Ok(Some(7)));
    assert_eq!(a.free_capacity(MemoryDomain::DeviceLocal), 4096);
}

#[test]
fn heap_of_no_bytes_hands_out_nothing() {
    let mut heap = DomainHeap::new(0, None).unwrap();
    assert_eq!(heap.capacity(), 0);
    assert_eq!(heap.free_capacity(), 0);
    assert_eq!(heap.allocate(1, 1), Err(AllocationError::OutOfMemory));
    assert_eq!(heap.deallocate(0, 1), Err(AllocationError::NotAllocated));
}
