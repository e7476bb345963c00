//! Suballocation of device memory, one free list per memory domain.
//!
//! A domain's memory is cut into blocks. An allocation takes the first free block
//! that holds it at the alignment asked for; what is left of the block stays
//! free. A block that is given back is made one with its free neighbours.
//! Blocks in use are never moved.

use vstd::prelude::*;
use crate::heap::{
    carve, chained, find_used, first_fit, fits, free_bytes, lemma_allocate,
    lemma_allocate_then_deallocate, lemma_block_in_range, lemma_bytes_single, lemma_bytes_total,
    lemma_carve, lemma_deallocate, lemma_merge_next, lemma_set_free, lemma_splice_tiles,
    merge_next, set_free, Block, HeapView,
};

verus! {

/// Where a region of device memory lives and who can reach it.
#[derive(Clone, Copy, Debug, PartialEq, Eq, Hash, Structural)]
pub enum MemoryDomain {
    /// Memory that only the device reads and writes.
    DeviceLocal,
    /// Memory that the host writes through a mapping that stays in place.
    HostVisible,
    /// Host-visible memory whose writes reach the device without a flush.
    HostCoherent,
}

impl MemoryDomain {
    pub open spec fn spec_is_host_visible(self) -> bool {
        self != MemoryDomain::DeviceLocal
    }

    pub fn is_host_visible(&self) -> (r: bool)
        ensures
            r == self.spec_is_host_visible(),
    {
        match self {
            MemoryDomain::DeviceLocal => false,
            MemoryDomain::HostVisible => true,
            MemoryDomain::HostCoherent => true,
        }
    }
}

/// A region of device memory that one buffer or image owns.
#[derive(Clone, Copy, Debug, PartialEq, Eq, Hash, Structural)]
pub struct MemoryAllocation {
    pub offset: u64,
    pub size: u64,
    pub domain: MemoryDomain,
    /// The host address of the region's first byte, where the domain is mapped.
    pub persistent_ptr: Option<u64>,
}

/// Why memory could not be handed out or taken back.
#[derive(Clone, Copy, Debug, PartialEq, Eq, Structural)]
pub enum AllocationError {
    /// No free stretch of the domain holds the request.
    OutOfMemory,
    /// The request is for no bytes at all.
    EmptyAllocation,
    /// The allocation is not one that this allocator has handed out and not
    /// yet taken back.
    NotAllocated,
}

/// The memory of one domain: its blocks in address order.
pub struct DomainHeap {
    capacity: u64,
    mapped_at: Option<u64>,
    blocks: Vec<Block>,
    free: u64,
}

impl View for DomainHeap {
    type V = HeapView;

    closed spec fn view(&self) -> HeapView {
        HeapView { capacity: self.capacity, mapped_at: self.mapped_at, blocks: self.blocks@ }
    }
}

impl DomainHeap {
    pub closed spec fn wf(&self) -> bool {
        &&& self@.wf()
        &&& self.free == free_bytes(self.blocks@)
    }

    /// A heap of `capacity` free bytes. `mapped_at` is the host address of its
    /// first byte, for a domain that is mapped. `None` where the mapping would
    /// reach behind the end of the address space.
    pub fn new(capacity: u64, mapped_at: Option<u64>) -> (r: Option<DomainHeap>)
        ensures
            match r {
                Some(heap) => {
                    &&& heap.wf()
                    &&& heap@.wf()
                    &&& heap@ == HeapView::fresh(capacity, mapped_at)
                    &&& heap@.free_capacity() == capacity
                },
                None => mapped_at is Some && mapped_at->Some_0 + capacity > u64::MAX,
            },
    {
        match mapped_at {
            Some(base) => {
                if base > u64::MAX - capacity {
                    return None;
                }
            },
            None => {},
        }
        let mut blocks: Vec<Block> = Vec::new();
        if capacity > 0 {
            let whole = Block { offset: 0, size: capacity, free: true };
            blocks.push(whole);
            proof {
                assert(blocks@ =~= seq![whole]);
                lemma_bytes_single(whole);
            }
        }
        Some(DomainHeap { capacity, mapped_at, blocks, free: capacity })
    }

    pub fn capacity(&self) -> (n: u64)
        ensures
            n == self@.capacity,
    {
        self.capacity
    }

    /// How many bytes are free, in all blocks together.
    pub fn free_capacity(&self) -> (n: u64)
        requires
            self.wf(),
        ensures
            n == self@.free_capacity(),
    {
        self.free
    }

    /// Hands out `size` bytes from the first free block that holds them at a
    /// multiple of `alignment`. An alignment of zero asks for nothing.
    pub fn allocate(&mut self, size: u64, alignment: u64) -> (r: Result<
        (u64, Option<u64>),
        AllocationError,
    >)
        requires
            old(self).wf(),
        ensures
            final(self).wf(),
            final(self)@ == old(self)@.allocate(size, alignment),
            size == 0 ==> r == Err::<(u64, Option<u64>), AllocationError>(
                AllocationError::EmptyAllocation,
            ),
            size > 0 ==> match old(self)@.allocation_offset(size, alignment) {
                Some(offset) => r == Ok::<(u64, Option<u64>), AllocationError>(
                    (offset, old(self)@.address_of(offset)),
                ),
                None => r == Err::<(u64, Option<u64>), AllocationError>(
                    AllocationError::OutOfMemory,
                ),
            },
    {
        if size == 0 {
            return Err(AllocationError::EmptyAllocation);
        }
        let ghost before = self@;
        proof {
            lemma_allocate(before, size, alignment);
            lemma_bytes_total(before.blocks, before.capacity);
        }
        let mut i: usize = 0;
        while i < self.blocks.len()
            invariant
                i <= self.blocks@.len(),
                self@ == before,
                before == old(self)@,
                self.wf(),
                size > 0,
                first_fit(before.blocks, size, alignment, 0) == first_fit(
                    before.blocks,
                    size,
                    alignment,
                    i as int,
                ),
            decreases self.blocks@.len() - i,
        {
            let block = self.blocks[i];
            let pad: u64 = if alignment == 0 || block.offset % alignment == 0 {
                0
            } else {
                alignment - block.offset % alignment
            };
            if block.free && size <= block.size && pad <= block.size - size {
                proof {
                    assert(fits(before.blocks[i as int], size, alignment));
                    assert(first_fit(before.blocks, size, alignment, i as int) == Some(i as int));
                    lemma_block_in_range(before.blocks, before.capacity, i as int);
                    lemma_carve(before.blocks, before.capacity, i as int, size, alignment);
                }
                let start: u64 = block.offset + pad;
                let rest: u64 = block.size - pad - size;
                self.blocks[i] = Block { offset: start, size, free: false };
                if rest > 0 {
                    self.blocks.insert(i + 1, Block { offset: start + size, size: rest, free: true });
                }
                if pad > 0 {
                    self.blocks.insert(i, Block { offset: block.offset, size: pad, free: true });
                }
                self.free = self.free - size;
                proof {
                    assert(self.blocks@ =~= carve(before.blocks, i as int, size, alignment));
                }
                let address = match self.mapped_at {
                    Some(base) => Some(base + start),
                    None => None,
                };
                return Ok((start, address));
            }
            i += 1;
        }
        Err(AllocationError::OutOfMemory)
    }

    /// Takes back the allocation of `size` bytes at `offset`, and makes the
    /// freed block one with its free neighbours.
    pub fn deallocate(&mut self, offset: u64, size: u64) -> (r: Result<(), AllocationError>)
        requires
            old(self).wf(),
        ensures
            final(self).wf(),
            final(self)@ == old(self)@.deallocate(offset, size),
            r == if old(self)@.is_allocated(offset, size) {
                Ok::<(), AllocationError>(())
            } else {
                Err::<(), AllocationError>(AllocationError::NotAllocated)
            },
    {
        let ghost before = self@;
        proof {
            lemma_deallocate(before, offset, size);
            lemma_bytes_total(before.blocks, before.capacity);
        }
        let mut i: usize = 0;
        while i < self.blocks.len()
            invariant
                i <= self.blocks@.len(),
                self@ == before,
                before == old(self)@,
                self.wf(),
                find_used(before.blocks, offset, size, 0) == find_used(
                    before.blocks,
                    offset,
                    size,
                    i as int,
                ),
            decreases self.blocks@.len() - i,
        {
            let block = self.blocks[i];
            if !block.free && block.offset == offset && block.size == size {
                proof {
                    assert(find_used(before.blocks, offset, size, i as int) == Some(i as int));
                    lemma_set_free(before.blocks, before.capacity, i as int);
                    lemma_bytes_total(set_free(before.blocks, i as int), before.capacity);
                }
                let ghost freed = before.blocks.update(
                    i as int,
                    Block { offset: block.offset, size: block.size, free: true },
                );
                self.blocks[i].free = true;
                assert(self.blocks@ =~= freed);
                proof {
                    assert(chained(seq![Block { offset: block.offset, size: block.size, free: true }]));
                    assert(freed =~= before.blocks.take(i as int) + seq![
                        Block { offset: block.offset, size: block.size, free: true },
                    ] + before.blocks.skip(i + 1));
                    lemma_splice_tiles(
                        before.blocks,
                        before.capacity,
                        i as int,
                        seq![Block { offset: block.offset, size: block.size, free: true }],
                    );
                    lemma_merge_next(freed, before.capacity, i as int);
                }
                if i + 1 < self.blocks.len() && self.blocks[i + 1].free {
                    proof {
                        lemma_block_in_range(freed, before.capacity, i + 1);
                    }
                    let next_size = self.blocks[i + 1].size;
                    self.blocks[i].size = block.size + next_size;
                    self.blocks.remove(i + 1);
                }
                assert(self.blocks@ =~= merge_next(freed, i as int));
                let ghost merged = merge_next(freed, i as int);
                if i > 0 && self.blocks[i - 1].free {
                    proof {
                        lemma_block_in_range(merged, before.capacity, i as int);
                    }
                    let this_size = self.blocks[i].size;
                    let previous_size = self.blocks[i - 1].size;
                    self.blocks[i - 1].size = previous_size + this_size;
                    self.blocks.remove(i);
                }
                assert(self.blocks@ =~= merge_next(merged, i - 1));
                self.free = self.free + size;
                return Ok(());
            }
            i += 1;
        }
        Err(AllocationError::NotAllocated)
    }
}

/// The capacities that an allocator is made with, and where the host-visible
/// domains are mapped.
#[derive(Clone, Copy, Debug, PartialEq, Eq, Structural)]
pub struct AllocatorConfig {
    pub device_local_capacity: u64,
    pub host_visible_capacity: u64,
    pub host_visible_mapped_at: u64,
    pub host_coherent_capacity: u64,
    pub host_coherent_mapped_at: u64,
}

impl AllocatorConfig {
    /// Whether the mappings of the host-visible domains lie within the address space.
    pub open spec fn representable(self) -> bool {
        &&& self.host_visible_mapped_at + self.host_visible_capacity <= u64::MAX
        &&& self.host_coherent_mapped_at + self.host_coherent_capacity <= u64::MAX
    }
}

/// The allocator, for the purpose of its contracts: one heap for each domain.
pub struct AllocatorView {
    pub device_local: HeapView,
    pub host_visible: HeapView,
    pub host_coherent: HeapView,
}

impl AllocatorView {
    pub open spec fn heap(self, domain: MemoryDomain) -> HeapView {
        match domain {
            MemoryDomain::DeviceLocal => self.device_local,
            MemoryDomain::HostVisible => self.host_visible,
            MemoryDomain::HostCoherent => self.host_coherent,
        }
    }

    /// The same allocator with another heap for `domain`.
    pub open spec fn with_heap(self, domain: MemoryDomain, heap: HeapView) -> AllocatorView {
        match domain {
            MemoryDomain::DeviceLocal => AllocatorView { device_local: heap, ..self },
            MemoryDomain::HostVisible => AllocatorView { host_visible: heap, ..self },
            MemoryDomain::HostCoherent => AllocatorView { host_coherent: heap, ..self },
        }
    }
}

/// Hands out device memory, one free list for each memory domain.
pub struct MemoryAllocator {
    device_local: DomainHeap,
    host_visible: DomainHeap,
    host_coherent: DomainHeap,
}

impl View for MemoryAllocator {
    type V = AllocatorView;

    closed spec fn view(&self) -> AllocatorView {
        AllocatorView {
            device_local: self.device_local@,
            host_visible: self.host_visible@,
            host_coherent: self.host_coherent@,
        }
    }
}

impl MemoryAllocator {
    pub closed spec fn wf(&self) -> bool {
        &&& self.device_local.wf()
        &&& self.host_visible.wf()
        &&& self.host_coherent.wf()
    }

    /// What well-formedness says of each heap.
    pub proof fn lemma_heaps_wf(&self, domain: MemoryDomain)
        requires
            self.wf(),
        ensures
            self@.heap(domain).wf(),
    {
    }

    /// An allocator whose memory is all free. `None` where a mapping would
    /// reach behind the end of the address space.
    pub fn new(config: AllocatorConfig) -> (r: Option<MemoryAllocator>)
        ensures
            r is Some == config.representable(),
            r is Some ==> {
                &&& r->Some_0.wf()
                &&& r->Some_0@.device_local == HeapView::fresh(config.device_local_capacity, None)
                &&& r->Some_0@.host_visible == HeapView::fresh(
                    config.host_visible_capacity,
                    Some(config.host_visible_mapped_at),
                )
                &&& r->Some_0@.host_coherent == HeapView::fresh(
                    config.host_coherent_capacity,
                    Some(config.host_coherent_mapped_at),
                )
                &&& forall|domain: MemoryDomain|
                    #[trigger] r->Some_0@.heap(domain).free_capacity() == r->Some_0@.heap(
                        domain,
                    ).capacity
            },
    {
        let device_local = match DomainHeap::new(config.device_local_capacity, None) {
            Some(heap) => heap,
            None => {
                return None;
            },
        };
        let host_visible = match DomainHeap::new(
            config.host_visible_capacity,
            Some(config.host_visible_mapped_at),
        ) {
            Some(heap) => heap,
            None => {
                return None;
            },
        };
        let host_coherent = match DomainHeap::new(
            config.host_coherent_capacity,
            Some(config.host_coherent_mapped_at),
        ) {
            Some(heap) => heap,
            None => {
                return None;
            },
        };
        Some(MemoryAllocator { device_local, host_visible, host_coherent })
    }

    /// How many bytes of `domain` are free.
    pub fn free_capacity(&self, domain: MemoryDomain) -> (n: u64)
        requires
            self.wf(),
        ensures
            n == self@.heap(domain).free_capacity(),
    {
        match domain {
            MemoryDomain::DeviceLocal => self.device_local.free_capacity(),
            MemoryDomain::HostVisible => self.host_visible.free_capacity(),
            MemoryDomain::HostCoherent => self.host_coherent.free_capacity(),
        }
    }

    /// Hands out `size` bytes of `domain` at a multiple of `alignment`, from the
    /// first free block that holds them. The other domains stay as they are.
    pub fn allocate(&mut self, size: u64, alignment: u64, domain: MemoryDomain) -> (r: Result<
        MemoryAllocation,
        AllocationError,
    >)
        requires
            old(self).wf(),
        ensures
            final(self).wf(),
            final(self)@ == old(self)@.with_heap(
                domain,
                old(self)@.heap(domain).allocate(size, alignment),
            ),
            size == 0 ==> r == Err::<MemoryAllocation, AllocationError>(
                AllocationError::EmptyAllocation,
            ),
            size > 0 ==> match old(self)@.heap(domain).allocation_offset(size, alignment) {
                Some(offset) => r == Ok::<MemoryAllocation, AllocationError>(
                    MemoryAllocation {
                        offset,
                        size,
                        domain,
                        persistent_ptr: old(self)@.heap(domain).address_of(offset),
                    },
                ),
                None => r == Err::<MemoryAllocation, AllocationError>(
                    AllocationError::OutOfMemory,
                ),
            },
            r is Ok ==> {
                &&& final(self)@.heap(domain).free_capacity() + size == old(self)@.heap(
                    domain,
                ).free_capacity()
                &&& r->Ok_0.offset + size <= old(self)@.heap(domain).capacity
                &&& alignment > 0 ==> r->Ok_0.offset % alignment == 0
                &&& final(self)@.heap(domain).is_allocated(r->Ok_0.offset, size)
            },
            r is Err ==> final(self)@ == old(self)@,
    {
        proof {
            lemma_allocate(self@.heap(domain), size, alignment);
            if size > 0 && self@.heap(domain).allocation_offset(size, alignment) is Some {
                lemma_allocate_then_deallocate(self@.heap(domain), size, alignment);
            }
        }
        let placed = match domain {
            MemoryDomain::DeviceLocal => self.device_local.allocate(size, alignment),
            MemoryDomain::HostVisible => self.host_visible.allocate(size, alignment),
            MemoryDomain::HostCoherent => self.host_coherent.allocate(size, alignment),
        };
        match placed {
            Ok((offset, persistent_ptr)) => Ok(
                MemoryAllocation { offset, size, domain, persistent_ptr },
            ),
            Err(error) => Err(error),
        }
    }

    /// Takes `allocation` back into its domain. An allocation that is not in
    /// use there is refused, and nothing changes.
    pub fn deallocate(&mut self, allocation: &MemoryAllocation) -> (r: Result<(), AllocationError>)
        requires
            old(self).wf(),
        ensures
            final(self).wf(),
            final(self)@ == old(self)@.with_heap(
                allocation.domain,
                old(self)@.heap(allocation.domain).deallocate(allocation.offset, allocation.size),
            ),
            r == if old(self)@.heap(allocation.domain).is_allocated(
                allocation.offset,
                allocation.size,
            ) {
                Ok::<(), AllocationError>(())
            } else {
                Err::<(), AllocationError>(AllocationError::NotAllocated)
            },
            r is Ok ==> final(self)@.heap(allocation.domain).free_capacity() == old(self)@.heap(
                allocation.domain,
            ).free_capacity() + allocation.size,
            r is Err ==> final(self)@ == old(self)@,
    {
        proof {
            lemma_deallocate(self@.heap(allocation.domain), allocation.offset, allocation.size);
        }
        match allocation.domain {
            MemoryDomain::DeviceLocal => self.device_local.deallocate(
                allocation.offset,
                allocation.size,
            ),
            MemoryDomain::HostVisible => self.host_visible.deallocate(
                allocation.offset,
                allocation.size,
            ),
            MemoryDomain::HostCoherent => self.host_coherent.deallocate(
                allocation.offset,
                allocation.size,
            ),
        }
    }
}

} // verus!
