//! Descriptor sets: what one binds, and the pooled allocation of sets.
//!
//! Sets are allocated from pool pages. Every page holds the same number of sets
//! of one shape. When the pages of a shape are full a new page is made; a freed
//! set goes back to the page it came from.

use vstd::prelude::*;
use crate::gpu::NativeHandle;
use crate::types::{GpuBuffer, GpuImageView, GpuSampler};

verus! {

#[derive(Clone, Copy)]
pub struct BufferRange<'a> {
    pub handle: &'a GpuBuffer,
    pub offset: u64,
    pub size: u64,
}

#[derive(Clone, Copy)]
pub struct SamplerState<'a> {
    pub sampler: &'a GpuSampler,
    pub image_view: &'a GpuImageView,
    pub image_layout: ash::vk::ImageLayout,
}

#[derive(Clone, Copy)]
pub enum DescriptorType<'a> {
    UniformBuffer(BufferRange<'a>),
    StorageBuffer(BufferRange<'a>),
    Sampler(SamplerState<'a>),
    CombinedImageSampler(SamplerState<'a>),
}

#[derive(Clone, Copy, Hash, Debug, PartialEq, Eq, PartialOrd, Ord, Structural)]
pub enum ShaderStage {
    Vertex,
    Fragment,
    VertexFragment,
    Compute,
    All,
}

#[derive(Clone, Copy)]
pub struct DescriptorInfo<'a> {
    pub binding: u32,
    pub element_type: DescriptorType<'a>,
    pub binding_stage: ShaderStage,
}

#[derive(Clone, Copy)]
pub struct DescriptorSetInfo<'a> {
    pub descriptors: &'a [DescriptorInfo<'a>],
}

/// The kind of a descriptor, without what it refers to.
#[derive(Clone, Copy, Hash, Debug, PartialEq, Eq, Structural)]
pub enum DescriptorKind {
    UniformBuffer,
    StorageBuffer,
    Sampler,
    CombinedImageSampler,
}

/// How many descriptors of each kind a set has.
#[derive(Clone, Copy, Hash, Debug, PartialEq, Eq, Structural)]
pub struct PoolShape {
    pub uniform_buffers: usize,
    pub storage_buffers: usize,
    pub samplers: usize,
    pub combined_image_samplers: usize,
}

impl<'a> DescriptorType<'a> {
    pub open spec fn spec_kind(self) -> DescriptorKind {
        match self {
            DescriptorType::UniformBuffer(_) => DescriptorKind::UniformBuffer,
            DescriptorType::StorageBuffer(_) => DescriptorKind::StorageBuffer,
            DescriptorType::Sampler(_) => DescriptorKind::Sampler,
            DescriptorType::CombinedImageSampler(_) => DescriptorKind::CombinedImageSampler,
        }
    }

    pub fn kind(&self) -> (k: DescriptorKind)
        ensures
            k == self.spec_kind(),
    {
        match self {
            DescriptorType::UniformBuffer(_) => DescriptorKind::UniformBuffer,
            DescriptorType::StorageBuffer(_) => DescriptorKind::StorageBuffer,
            DescriptorType::Sampler(_) => DescriptorKind::Sampler,
            DescriptorType::CombinedImageSampler(_) => DescriptorKind::CombinedImageSampler,
        }
    }
}

/// How many of the descriptors are of `kind`.
pub open spec fn count_kind(descriptors: Seq<DescriptorInfo>, kind: DescriptorKind) -> nat
    decreases descriptors.len(),
{
    if descriptors.len() == 0 {
        0
    } else {
        count_kind(descriptors.drop_last(), kind) + if descriptors.last().element_type.spec_kind()
            == kind {
            1nat
        } else {
            0nat
        }
    }
}

/// Whether the descriptors carry the binding indices 0, 1, 2 and so on, in
/// this order.
pub open spec fn contiguous_bindings(descriptors: Seq<DescriptorInfo>) -> bool {
    forall|i: int| 0 <= i < descriptors.len() ==> (#[trigger] descriptors[i]).binding == i
}

/// There are no more descriptors of a kind than descriptors.
pub proof fn lemma_count_kind_bound(descriptors: Seq<DescriptorInfo>, kind: DescriptorKind)
    ensures
        count_kind(descriptors, kind) <= descriptors.len(),
    decreases descriptors.len(),
{
    if descriptors.len() > 0 {
        lemma_count_kind_bound(descriptors.drop_last(), kind);
    }
}

impl<'a> DescriptorSetInfo<'a> {
    /// The shape of pool that sets of this layout come from.
    pub open spec fn spec_shape(self) -> PoolShape {
        PoolShape {
            uniform_buffers: count_kind(self.descriptors@, DescriptorKind::UniformBuffer) as usize,
            storage_buffers: count_kind(self.descriptors@, DescriptorKind::StorageBuffer) as usize,
            samplers: count_kind(self.descriptors@, DescriptorKind::Sampler) as usize,
            combined_image_samplers: count_kind(
                self.descriptors@,
                DescriptorKind::CombinedImageSampler,
            ) as usize,
        }
    }

    pub fn shape(&self) -> (shape: PoolShape)
        ensures
            shape == self.spec_shape(),
    {
        let mut shape = PoolShape {
            uniform_buffers: 0,
            storage_buffers: 0,
            samplers: 0,
            combined_image_samplers: 0,
        };
        let mut i: usize = 0;
        while i < self.descriptors.len()
            invariant
                i <= self.descriptors@.len(),
                shape.uniform_buffers == count_kind(
                    self.descriptors@.take(i as int),
                    DescriptorKind::UniformBuffer,
                ),
                shape.storage_buffers == count_kind(
                    self.descriptors@.take(i as int),
                    DescriptorKind::StorageBuffer,
                ),
                shape.samplers == count_kind(
                    self.descriptors@.take(i as int),
                    DescriptorKind::Sampler,
                ),
                shape.combined_image_samplers == count_kind(
                    self.descriptors@.take(i as int),
                    DescriptorKind::CombinedImageSampler,
                ),
            decreases self.descriptors@.len() - i,
        {
            proof {
                let next = self.descriptors@.take(i + 1);
                assert(next.drop_last() =~= self.descriptors@.take(i as int));
                assert(next.last() == self.descriptors@[i as int]);
                lemma_count_kind_bound(next, DescriptorKind::UniformBuffer);
                lemma_count_kind_bound(next, DescriptorKind::StorageBuffer);
                lemma_count_kind_bound(next, DescriptorKind::Sampler);
                lemma_count_kind_bound(next, DescriptorKind::CombinedImageSampler);
            }
            match self.descriptors[i].element_type.kind() {
                DescriptorKind::UniformBuffer => {
                    shape.uniform_buffers = shape.uniform_buffers + 1;
                },
                DescriptorKind::StorageBuffer => {
                    shape.storage_buffers = shape.storage_buffers + 1;
                },
                DescriptorKind::Sampler => {
                    shape.samplers = shape.samplers + 1;
                },
                DescriptorKind::CombinedImageSampler => {
                    shape.combined_image_samplers = shape.combined_image_samplers + 1;
                },
            }
            i += 1;
        }
        assert(self.descriptors@.take(i as int) =~= self.descriptors@);
        shape
    }

    /// Whether the binding indices are 0, 1, 2 and so on, in this order.
    pub fn has_contiguous_bindings(&self) -> (r: bool)
        ensures
            r == contiguous_bindings(self.descriptors@),
    {
        let mut i: usize = 0;
        while i < self.descriptors.len()
            invariant
                i <= self.descriptors@.len(),
                forall|k: int| 0 <= k < i ==> (#[trigger] self.descriptors@[k]).binding == k,
            decreases self.descriptors@.len() - i,
        {
            if i > u32::MAX as usize || self.descriptors[i].binding != i as u32 {
                assert(self.descriptors@[i as int].binding != i);
                return false;
            }
            i += 1;
        }
        true
    }
}

/// The place of one descriptor set: the pool page it came from, its slot there,
/// and the native set that was allocated for it.
#[derive(Clone, Copy, Debug, PartialEq, Eq, Hash, Structural)]
pub struct DescriptorSetAllocation {
    pub descriptor_set: NativeHandle,
    pub pool_index: usize,
    pub slot: usize,
}

/// Why a descriptor set could not be allocated or given back.
#[derive(Clone, Copy, Debug, PartialEq, Eq, Structural)]
pub enum DescriptorSetError {
    /// The binding indices of the layout are not 0, 1, 2 and so on.
    NonContiguousBindings,
    /// Every page of the shape is full and no further page may be made.
    OutOfPoolMemory,
    /// The set is not one that this allocator has handed out and not yet
    /// taken back.
    NotAllocated,
}

/// Where a new descriptor set is to be allocated natively.
#[derive(Clone, Copy, Debug, PartialEq, Eq, Structural)]
pub struct DescriptorSetSlot {
    pub pool_index: usize,
    pub slot: usize,
    /// Whether the page is new, so that its native pool has yet to be created.
    pub new_pool: bool,
    pub shape: PoolShape,
}

/// One pool page, for the purpose of its contracts.
pub struct PageView {
    pub shape: PoolShape,
    /// For each slot of the page, whether a set lives there.
    pub used: Seq<bool>,
}

/// The first slot at or behind `from` that is free.
pub open spec fn first_free(used: Seq<bool>, from: int) -> Option<int>
    decreases used.len() - from,
{
    if from < 0 || from >= used.len() {
        None
    } else if !used[from] {
        Some(from)
    } else {
        first_free(used, from + 1)
    }
}

/// The first page at or behind `from` that has the shape and a free slot.
pub open spec fn first_page(pages: Seq<PageView>, shape: PoolShape, from: int) -> Option<int>
    decreases pages.len() - from,
{
    if from < 0 || from >= pages.len() {
        None
    } else if pages[from].shape == shape && first_free(pages[from].used, 0) is Some {
        Some(from)
    } else {
        first_page(pages, shape, from + 1)
    }
}

/// The allocator, for the purpose of its contracts.
pub struct PoolsView {
    pub sets_per_pool: usize,
    pub max_pools: usize,
    pub pages: Seq<PageView>,
}

impl PoolsView {
    pub open spec fn wf(self) -> bool {
        &&& self.sets_per_pool > 0
        &&& self.pages.len() <= self.max_pools
        &&& forall|p: int|
            0 <= p < self.pages.len() ==> (#[trigger] self.pages[p]).used.len()
                == self.sets_per_pool
    }

    /// Where the next set of `shape` goes: a free slot of the first page of the
    /// shape that has one, else the first slot of a new page, else nowhere.
    pub open spec fn placement(self, shape: PoolShape) -> Option<DescriptorSetSlot> {
        match first_page(self.pages, shape, 0) {
            Some(page) => Some(
                DescriptorSetSlot {
                    pool_index: page as usize,
                    slot: first_free(self.pages[page].used, 0)->Some_0 as usize,
                    new_pool: false,
                    shape,
                },
            ),
            None => if self.pages.len() < self.max_pools {
                Some(
                    DescriptorSetSlot {
                        pool_index: self.pages.len() as usize,
                        slot: 0,
                        new_pool: true,
                        shape,
                    },
                )
            } else {
                None
            },
        }
    }

    /// A page of `shape` with no set in it.
    pub open spec fn empty_page(self, shape: PoolShape) -> PageView {
        PageView { shape, used: Seq::new(self.sets_per_pool as nat, |i: int| false) }
    }

    /// The allocator after a set was placed at `place`.
    pub open spec fn occupy(self, place: DescriptorSetSlot) -> PoolsView {
        let pages = if place.new_pool {
            self.pages.push(self.empty_page(place.shape))
        } else {
            self.pages
        };
        let page = pages[place.pool_index as int];
        PoolsView {
            pages: pages.update(
                place.pool_index as int,
                PageView { shape: page.shape, used: page.used.update(place.slot as int, true) },
            ),
            ..self
        }
    }

    /// Whether a set lives at `slot` of page `pool_index`.
    pub open spec fn is_allocated(self, pool_index: usize, slot: usize) -> bool {
        &&& pool_index < self.pages.len()
        &&& slot < self.pages[pool_index as int].used.len()
        &&& self.pages[pool_index as int].used[slot as int]
    }

    /// The allocator after the set at `slot` of page `pool_index` was given back.
    pub open spec fn vacate(self, pool_index: usize, slot: usize) -> PoolsView {
        let page = self.pages[pool_index as int];
        PoolsView {
            pages: self.pages.update(
                pool_index as int,
                PageView { shape: page.shape, used: page.used.update(slot as int, false) },
            ),
            ..self
        }
    }
}

/// Where `first_free` finds a slot, the slot is there and free, and none before it is.
pub proof fn lemma_first_free(used: Seq<bool>, from: int)
    requires
        0 <= from,
    ensures
        match first_free(used, from) {
            Some(slot) => from <= slot < used.len() && !used[slot] && forall|k: int|
                from <= k < slot ==> #[trigger] used[k],
            None => forall|k: int| from <= k < used.len() ==> #[trigger] used[k],
        },
    decreases used.len() - from,
{
    if from < used.len() && used[from] {
        lemma_first_free(used, from + 1);
    }
}

/// Where `first_page` finds a page, the page is there, has the shape and a free slot.
pub proof fn lemma_first_page(pages: Seq<PageView>, shape: PoolShape, from: int)
    requires
        0 <= from,
    ensures
        match first_page(pages, shape, from) {
            Some(page) => from <= page < pages.len() && pages[page].shape == shape
                && first_free(pages[page].used, 0) is Some,
            None => forall|k: int|
                from <= k < pages.len() ==> !((#[trigger] pages[k]).shape == shape
                    && first_free(pages[k].used, 0) is Some),
        },
    decreases pages.len() - from,
{
    if from < pages.len() && !(pages[from].shape == shape && first_free(pages[from].used, 0)
        is Some) {
        lemma_first_page(pages, shape, from + 1);
    }
}

/// Placing a set keeps the allocator well formed, and the set then lives in a
/// page of its shape. A new page is made only when every page of the shape
/// is full.
pub proof fn lemma_occupy(pools: PoolsView, shape: PoolShape)
    requires
        pools.wf(),
        pools.placement(shape) is Some,
    ensures
        pools.occupy(pools.placement(shape)->Some_0).wf(),
        pools.occupy(pools.placement(shape)->Some_0).is_allocated(
            pools.placement(shape)->Some_0.pool_index,
            pools.placement(shape)->Some_0.slot,
        ),
        !pools.is_allocated(
            pools.placement(shape)->Some_0.pool_index,
            pools.placement(shape)->Some_0.slot,
        ),
        pools.occupy(pools.placement(shape)->Some_0).pages[pools.placement(
            shape,
        )->Some_0.pool_index as int].shape == shape,
        pools.placement(shape)->Some_0.new_pool ==> forall|k: int|
            0 <= k < pools.pages.len() && (#[trigger] pools.pages[k]).shape == shape ==> forall|
                s: int,
            |
                0 <= s < pools.pages[k].used.len() ==> #[trigger] pools.pages[k].used[s],
{
    lemma_first_page(pools.pages, shape, 0);
    match first_page(pools.pages, shape, 0) {
        Some(page) => {
            lemma_first_free(pools.pages[page].used, 0);
        },
        None => {
            assert forall|k: int|
                0 <= k < pools.pages.len() && (#[trigger] pools.pages[k]).shape
                    == shape implies forall|s: int|
                0 <= s < pools.pages[k].used.len() ==> #[trigger] pools.pages[k].used[s] by {
                lemma_first_free(pools.pages[k].used, 0);
            }
        },
    }
}

/// A set that was given back leaves its slot free in the page it came from,
/// every other slot as it was, and the next set of the page's shape is placed
/// in a page that exists already.
pub proof fn lemma_vacate(pools: PoolsView, pool_index: usize, slot: usize)
    requires
        pools.wf(),
        pools.is_allocated(pool_index, slot),
    ensures
        pools.vacate(pool_index, slot).wf(),
        !pools.vacate(pool_index, slot).is_allocated(pool_index, slot),
        forall|p: usize, s: usize|
            (p != pool_index || s != slot) ==> pools.vacate(pool_index, slot).is_allocated(p, s)
                == pools.is_allocated(p, s),
        pools.vacate(pool_index, slot).placement(pools.pages[pool_index as int].shape) is Some,
        !pools.vacate(pool_index, slot).placement(
            pools.pages[pool_index as int].shape,
        )->Some_0.new_pool,
{
    let after = pools.vacate(pool_index, slot);
    let shape = pools.pages[pool_index as int].shape;
    lemma_first_page(after.pages, shape, 0);
    lemma_first_free_exists(after.pages[pool_index as int].used, 0, slot as int);
}

/// Where a slot at or behind `from` is free, `first_free` finds one.
pub proof fn lemma_first_free_exists(used: Seq<bool>, from: int, at: int)
    requires
        0 <= from <= at < used.len(),
        !used[at],
    ensures
        first_free(used, from) is Some,
    decreases at - from,
{
    if from < at && used[from] {
        lemma_first_free_exists(used, from + 1, at);
    }
}

struct PoolPage {
    shape: PoolShape,
    used: Vec<bool>,
}

impl View for PoolPage {
    type V = PageView;

    closed spec fn view(&self) -> PageView {
        PageView { shape: self.shape, used: self.used@ }
    }
}

/// Allocates descriptor sets from pool pages of a fixed number of sets each.
pub struct DescriptorSetAllocator {
    sets_per_pool: usize,
    max_pools: usize,
    pages: Vec<PoolPage>,
}

impl View for DescriptorSetAllocator {
    type V = PoolsView;

    closed spec fn view(&self) -> PoolsView {
        PoolsView {
            sets_per_pool: self.sets_per_pool,
            max_pools: self.max_pools,
            pages: self.pages@.map_values(|p: PoolPage| p@),
        }
    }
}

impl DescriptorSetAllocator {
    pub open spec fn wf(&self) -> bool {
        self@.wf()
    }

    /// An allocator without pages, whose pages will hold `sets_per_pool` sets
    /// each, and which makes at most `max_pools` pages. `None` for pages that
    /// would hold no set.
    pub fn new(sets_per_pool: usize, max_pools: usize) -> (r: Option<DescriptorSetAllocator>)
        ensures
            r is Some == (sets_per_pool > 0),
            r is Some ==> r->Some_0.wf() && r->Some_0@ == (PoolsView {
                sets_per_pool,
                max_pools,
                pages: Seq::empty(),
            }),
    {
        if sets_per_pool == 0 {
            return None;
        }
        let allocator = DescriptorSetAllocator { sets_per_pool, max_pools, pages: Vec::new() };
        assert(allocator@.pages =~= Seq::empty());
        Some(allocator)
    }

    /// How many pool pages there are.
    pub fn pool_count(&self) -> (n: usize)
        ensures
            n == self@.pages.len(),
    {
        self.pages.len()
    }

    /// The first free slot of page `page`, if it has one.
    fn find_free_slot(&self, page: usize) -> (r: Option<usize>)
        requires
            page < self.pages@.len(),
        ensures
            match first_free(self@.pages[page as int].used, 0) {
                Some(slot) => r == Some(slot as usize),
                None => r is None,
            },
    {
        let used = &self.pages[page].used;
        let mut slot: usize = 0;
        while slot < used.len()
            invariant
                slot <= used@.len(),
                used@ == self@.pages[page as int].used,
                first_free(used@, 0) == first_free(used@, slot as int),
            decreases used@.len() - slot,
        {
            if !used[slot] {
                return Some(slot);
            }
            slot += 1;
        }
        None
    }

    /// Finds the place for a set of the layout `info` and marks it as in use.
    /// The caller then allocates the native set there, creating the native
    /// pool first where the page is new.
    pub fn allocate(&mut self, info: &DescriptorSetInfo) -> (r: Result<
        DescriptorSetSlot,
        DescriptorSetError,
    >)
        requires
            old(self).wf(),
        ensures
            final(self).wf(),
            !contiguous_bindings(info.descriptors@) ==> r == Err::<
                DescriptorSetSlot,
                DescriptorSetError,
            >(DescriptorSetError::NonContiguousBindings) && final(self)@ == old(self)@,
            contiguous_bindings(info.descriptors@) ==> match old(self)@.placement(
                info.spec_shape(),
            ) {
                Some(place) => r == Ok::<DescriptorSetSlot, DescriptorSetError>(place)
                    && final(self)@ == old(self)@.occupy(place),
                None => r == Err::<DescriptorSetSlot, DescriptorSetError>(
                    DescriptorSetError::OutOfPoolMemory,
                ) && final(self)@ == old(self)@,
            },
    {
        if !info.has_contiguous_bindings() {
            return Err(DescriptorSetError::NonContiguousBindings);
        }
        let shape = info.shape();
        let ghost before = self@;
        proof {
            lemma_first_page(before.pages, shape, 0);
            if before.placement(shape) is Some {
                lemma_occupy(before, shape);
            }
        }
        let mut page: usize = 0;
        while page < self.pages.len()
            invariant
                page <= self.pages@.len(),
                self@ == before,
                before == old(self)@,
                before.wf(),
                contiguous_bindings(info.descriptors@),
                shape == info.spec_shape(),
                first_page(before.pages, shape, 0) == first_page(before.pages, shape, page as int),
            decreases self.pages@.len() - page,
        {
            if self.pages[page].shape == shape {
                match self.find_free_slot(page) {
                    Some(slot) => {
                        proof {
                            lemma_first_free(before.pages[page as int].used, 0);
                            assert(first_page(before.pages, shape, page as int) == Some(
                                page as int,
                            ));
                        }
                        let place = DescriptorSetSlot {
                            pool_index: page,
                            slot,
                            new_pool: false,
                            shape,
                        };
                        self.pages[page].used[slot] = true;
                        assert(self@.pages =~= before.occupy(place).pages);
                        return Ok(place);
                    },
                    None => {},
                }
            }
            page += 1;
        }
        if self.pages.len() >= self.max_pools {
            return Err(DescriptorSetError::OutOfPoolMemory);
        }
        let pool_index = self.pages.len();
        let mut used: Vec<bool> = vec![false; self.sets_per_pool];
        assert(used@ =~= before.empty_page(shape).used);
        used[0] = true;
        self.pages.push(PoolPage { shape, used });
        let place = DescriptorSetSlot { pool_index, slot: 0, new_pool: true, shape };
        assert(self@.pages =~= before.occupy(place).pages);
        Ok(place)
    }

    /// Takes the set of `allocation` back into the page it came from.
    pub fn deallocate(&mut self, allocation: &DescriptorSetAllocation) -> (r: Result<
        (),
        DescriptorSetError,
    >)
        requires
            old(self).wf(),
        ensures
            final(self).wf(),
            old(self)@.is_allocated(allocation.pool_index, allocation.slot) ==> r == Ok::<
                (),
                DescriptorSetError,
            >(()) && final(self)@ == old(self)@.vacate(allocation.pool_index, allocation.slot),
            !old(self)@.is_allocated(allocation.pool_index, allocation.slot) ==> r == Err::<
                (),
                DescriptorSetError,
            >(DescriptorSetError::NotAllocated) && final(self)@ == old(self)@,
    {
        let ghost before = self@;
        if allocation.pool_index >= self.pages.len() {
            return Err(DescriptorSetError::NotAllocated);
        }
        if allocation.slot >= self.pages[allocation.pool_index].used.len() {
            return Err(DescriptorSetError::NotAllocated);
        }
        if !self.pages[allocation.pool_index].used[allocation.slot] {
            return Err(DescriptorSetError::NotAllocated);
        }
        proof {
            lemma_vacate(before, allocation.pool_index, allocation.slot);
        }
        self.pages[allocation.pool_index].used[allocation.slot] = false;
        assert(self@.pages =~= before.vacate(allocation.pool_index, allocation.slot).pages);
        Ok(())
    }
}

} // verus!
