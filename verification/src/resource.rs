//! A generational arena: long-lived objects behind counted handles.
//!
//! A handle is an index and a generation. A slot's generation goes up when the
//! slot is vacated, so a handle to what was freed never resolves again, even
//! after the slot has been given to another object.

use vstd::prelude::*;
use std::marker::PhantomData;

verus! {

/// A key to one slot of a `ResourceMap<T>`, in one generation of the slot.
pub struct ResourceHandle<T> {
    pub index: usize,
    pub generation: u64,
    pub marker: PhantomData<T>,
}

impl<T> Clone for ResourceHandle<T> {
    /// A copy of the key. It does not count as a handle: see
    /// `ResourceMap::clone_handle`.
    fn clone(&self) -> (r: Self)
        ensures
            r == *self,
    {
        ResourceHandle { index: self.index, generation: self.generation, marker: PhantomData }
    }
}

impl<T> Copy for ResourceHandle<T> {

}

/// Why a handle does not resolve.
#[derive(Clone, Copy, Debug, PartialEq, Eq, Structural)]
pub enum ResolutionError {
    /// The arena has no slot of this index.
    OutOfRange,
    /// The slot was vacated after the handle was made.
    Stale,
    /// The slot cannot count one more handle.
    TooManyHandles,
}

/// One slot of the arena, for the purpose of its contracts.
pub struct SlotView<T> {
    pub generation: u64,
    /// How many handles to the object are alive.
    pub strong: nat,
    pub value: Option<T>,
}

/// The arena, for the purpose of its contracts.
pub struct ResourceMapView<T> {
    pub slots: Seq<SlotView<T>>,
    /// The vacated slots that `add` reuses, the next one last.
    pub free: Seq<usize>,
}

impl<T> ResourceMapView<T> {
    /// Why `handle` does not resolve, if it does not.
    pub open spec fn resolution_error(self, handle: ResourceHandle<T>) -> Option<
        ResolutionError,
    > {
        if handle.index >= self.slots.len() {
            Some(ResolutionError::OutOfRange)
        } else if self.slots[handle.index as int].value is None
            || self.slots[handle.index as int].generation != handle.generation {
            Some(ResolutionError::Stale)
        } else {
            None
        }
    }

    pub open spec fn resolves(self, handle: ResourceHandle<T>) -> bool {
        self.resolution_error(handle) is None
    }

    /// A handle that will never resolve again: it names a slot in a generation
    /// that the slot has left behind, or a vacant slot that is not reused.
    pub open spec fn is_dead(self, handle: ResourceHandle<T>) -> bool {
        &&& handle.index < self.slots.len()
        &&& (handle.generation < self.slots[handle.index as int].generation || (
        self.slots[handle.index as int].value is None && !self.free.contains(handle.index)))
    }

    /// The handle that `add` gives out.
    pub open spec fn next_handle(self) -> ResourceHandle<T> {
        if self.free.len() > 0 {
            ResourceHandle {
                index: self.free.last(),
                generation: self.slots[self.free.last() as int].generation,
                marker: PhantomData,
            }
        } else {
            ResourceHandle { index: self.slots.len() as usize, generation: 0, marker: PhantomData }
        }
    }

    /// The arena after `value` was added.
    pub open spec fn add(self, value: T) -> ResourceMapView<T> {
        if self.free.len() > 0 {
            ResourceMapView {
                slots: self.slots.update(
                    self.free.last() as int,
                    SlotView {
                        generation: self.slots[self.free.last() as int].generation,
                        strong: 1,
                        value: Some(value),
                    },
                ),
                free: self.free.drop_last(),
            }
        } else {
            ResourceMapView {
                slots: self.slots.push(SlotView { generation: 0, strong: 1, value: Some(value) }),
                free: self.free,
            }
        }
    }

    /// The arena after one more handle to the object of `handle` was made.
    pub open spec fn retain(self, handle: ResourceHandle<T>) -> ResourceMapView<T> {
        let slot = self.slots[handle.index as int];
        ResourceMapView {
            slots: self.slots.update(
                handle.index as int,
                SlotView { strong: slot.strong + 1, ..slot },
            ),
            free: self.free,
        }
    }

    /// The arena after one handle to the object of `handle` was dropped. With the
    /// last handle the slot is vacated: its generation goes up, and it is
    /// reused from then on, unless its generations are used up.
    pub open spec fn release(self, handle: ResourceHandle<T>) -> ResourceMapView<T> {
        let slot = self.slots[handle.index as int];
        if slot.strong > 1 {
            ResourceMapView {
                slots: self.slots.update(
                    handle.index as int,
                    SlotView { strong: (slot.strong - 1) as nat, ..slot },
                ),
                free: self.free,
            }
        } else if slot.generation < u64::MAX {
            ResourceMapView {
                slots: self.slots.update(
                    handle.index as int,
                    SlotView {
                        generation: (slot.generation + 1) as u64,
                        strong: 0,
                        value: None,
                    },
                ),
                free: self.free.push(handle.index),
            }
        } else {
            ResourceMapView {
                slots: self.slots.update(
                    handle.index as int,
                    SlotView { generation: slot.generation, strong: 0, value: None },
                ),
                free: self.free,
            }
        }
    }

    /// The arena after `count` handles to the object of `handle` were dropped.
    pub open spec fn release_times(self, handle: ResourceHandle<T>, count: nat) -> ResourceMapView<
        T,
    >
        decreases count,
    {
        if count == 0 {
            self
        } else {
            self.release(handle).release_times(handle, (count - 1) as nat)
        }
    }

    /// What every arena satisfies: its slots can be counted by the machine, a slot
    /// holds an object exactly while handles to it are alive, and the free list
    /// names vacant slots, each once.
    pub open spec fn wf(self) -> bool {
        &&& self.slots.len() <= usize::MAX
        &&& forall|i: int|
            0 <= i < self.slots.len() ==> ((#[trigger] self.slots[i]).value is Some
                <==> self.slots[i].strong > 0)
        &&& forall|j: int|
            0 <= j < self.free.len() ==> (#[trigger] self.free[j]) < self.slots.len()
                && self.slots[self.free[j] as int].value is None
        &&& forall|j: int, k: int|
            0 <= j < k < self.free.len() ==> self.free[j] != self.free[k]
    }
}

struct Slot<T> {
    generation: u64,
    strong: usize,
    value: Option<T>,
}

impl<T> View for Slot<T> {
    type V = SlotView<T>;

    closed spec fn view(&self) -> SlotView<T> {
        SlotView { generation: self.generation, strong: self.strong as nat, value: self.value }
    }
}

/// The arena that owns the objects of one kind.
pub struct ResourceMap<T> {
    slots: Vec<Slot<T>>,
    free: Vec<usize>,
}

impl<T> View for ResourceMap<T> {
    type V = ResourceMapView<T>;

    closed spec fn view(&self) -> ResourceMapView<T> {
        ResourceMapView { slots: self.slots@.map_values(|s: Slot<T>| s@), free: self.free@ }
    }
}

impl<T> ResourceMap<T> {
    pub open spec fn wf(&self) -> bool {
        self@.wf()
    }

    pub fn new() -> (map: ResourceMap<T>)
        ensures
            map.wf(),
            map@.slots.len() == 0,
            map@.free.len() == 0,
    {
        ResourceMap { slots: Vec::new(), free: Vec::new() }
    }

    /// How many slots the arena has, in use or not.
    pub fn capacity(&self) -> (n: usize)
        ensures
            n == self@.slots.len(),
    {
        self.slots.len()
    }

    /// Resolves a handle to the object it was made for.
    pub fn get(&self, handle: &ResourceHandle<T>) -> (r: Result<&T, ResolutionError>)
        requires
            self.wf(),
        ensures
            match self@.resolution_error(*handle) {
                Some(error) => r == Err::<&T, ResolutionError>(error),
                None => r is Ok && Some(*r->Ok_0) == self@.slots[handle.index as int].value,
            },
    {
        if handle.index >= self.slots.len() {
            return Err(ResolutionError::OutOfRange);
        }
        let slot = &self.slots[handle.index];
        if slot.generation != handle.generation {
            return Err(ResolutionError::Stale);
        }
        match &slot.value {
            Some(value) => Ok(value),
            None => Err(ResolutionError::Stale),
        }
    }
}

impl<T> ResourceMap<T> {
    /// Puts `value` into the arena and returns the first handle to it. A vacated
    /// slot is reused, the one vacated last first; else a slot is appended.
    pub fn add(&mut self, value: T) -> (handle: ResourceHandle<T>)
        requires
            old(self).wf(),
        ensures
            final(self).wf(),
            final(self)@ == old(self)@.add(value),
            handle == old(self)@.next_handle(),
            final(self)@.resolves(handle),
    {
        let ghost before = self@;
        match self.free.pop() {
            Some(index) => {
                let generation = self.slots[index].generation;
                self.slots[index].strong = 1;
                self.slots[index].value = Some(value);
                proof {
                    assert(self@.slots =~= before.add(value).slots);
                    assert(self@.free =~= before.add(value).free);
                }
                ResourceHandle { index, generation, marker: PhantomData }
            },
            None => {
                let index = self.slots.len();
                self.slots.push(Slot { generation: 0, strong: 1, value: Some(value) });
                proof {
                    assert(self.slots.len() == self.slots@.len());
                    assert(self@.slots =~= before.add(value).slots);
                }
                ResourceHandle { index, generation: 0, marker: PhantomData }
            },
        }
    }
}

impl<T> ResourceMap<T> {
    /// Makes one more handle to the object of `handle`.
    pub fn clone_handle(&mut self, handle: &ResourceHandle<T>) -> (r: Result<
        ResourceHandle<T>,
        ResolutionError,
    >)
        requires
            old(self).wf(),
        ensures
            final(self).wf(),
            match old(self)@.resolution_error(*handle) {
                Some(error) => r == Err::<ResourceHandle<T>, ResolutionError>(error)
                    && final(self)@ == old(self)@,
                None => if old(self)@.slots[handle.index as int].strong >= usize::MAX {
                    r == Err::<ResourceHandle<T>, ResolutionError>(
                        ResolutionError::TooManyHandles,
                    ) && final(self)@ == old(self)@
                } else {
                    r == Ok::<ResourceHandle<T>, ResolutionError>(*handle) && final(self)@
                        == old(self)@.retain(*handle)
                },
            },
    {
        let ghost before = self@;
        if handle.index >= self.slots.len() {
            return Err(ResolutionError::OutOfRange);
        }
        if self.slots[handle.index].generation != handle.generation
            || self.slots[handle.index].value.is_none() {
            return Err(ResolutionError::Stale);
        }
        let strong = self.slots[handle.index].strong;
        if strong == usize::MAX {
            return Err(ResolutionError::TooManyHandles);
        }
        self.slots[handle.index].strong = strong + 1;
        proof {
            assert(self@.slots =~= before.retain(*handle).slots);
        }
        Ok(*handle)
    }

    /// Drops one handle to the object of `handle`. With the last handle the
    /// object leaves the arena and is returned, for the caller to destroy.
    pub fn drop_handle(&mut self, handle: ResourceHandle<T>) -> (r: Result<
        Option<T>,
        ResolutionError,
    >)
        requires
            old(self).wf(),
        ensures
            final(self).wf(),
            match old(self)@.resolution_error(handle) {
                Some(error) => r == Err::<Option<T>, ResolutionError>(error) && final(self)@
                    == old(self)@,
                None => {
                    &&& final(self)@ == old(self)@.release(handle)
                    &&& r == Ok::<Option<T>, ResolutionError>(
                        if old(self)@.slots[handle.index as int].strong > 1 {
                            None
                        } else {
                            old(self)@.slots[handle.index as int].value
                        },
                    )
                    &&& final(self)@.resolves(handle) == (old(self)@.slots[handle.index as int].strong
                        > 1)
                },
            },
    {
        let ghost before = self@;
        if handle.index >= self.slots.len() {
            return Err(ResolutionError::OutOfRange);
        }
        if self.slots[handle.index].generation != handle.generation
            || self.slots[handle.index].value.is_none() {
            return Err(ResolutionError::Stale);
        }
        let strong = self.slots[handle.index].strong;
        if strong > 1 {
            self.slots[handle.index].strong = strong - 1;
            proof {
                assert(self@.slots =~= before.release(handle).slots);
            }
            return Ok(None);
        }
        let generation = self.slots[handle.index].generation;
        let value = self.slots[handle.index].value.take();
        self.slots[handle.index].strong = 0;
        if generation < u64::MAX {
            self.slots[handle.index].generation = generation + 1;
            self.free.push(handle.index);
        }
        proof {
            assert(self@.slots =~= before.release(handle).slots);
            assert(self@.free =~= before.release(handle).free);
        }
        Ok(value)
    }
}

/// A dead handle does not resolve.
pub proof fn lemma_dead_handle_rejected<T>(map: ResourceMapView<T>, handle: ResourceHandle<T>)
    requires
        map.wf(),
        map.is_dead(handle),
    ensures
        map.resolution_error(handle) == Some(ResolutionError::Stale),
{
    if map.slots[handle.index as int].value is Some && map.slots[handle.index as int].generation
        == handle.generation {
        assert(false);
    }
}

/// Adding an object keeps the arena well formed, makes the new handle resolve
/// to the object, and leaves every dead handle dead.
pub proof fn lemma_add<T>(map: ResourceMapView<T>, value: T, dead: ResourceHandle<T>)
    requires
        map.wf(),
        map.free.len() == 0 ==> map.slots.len() < usize::MAX,
    ensures
        map.add(value).wf(),
        map.add(value).resolves(map.next_handle()),
        map.add(value).slots[map.next_handle().index as int].value == Some(value),
        map.add(value).slots[map.next_handle().index as int].strong == 1,
        map.is_dead(dead) ==> map.add(value).is_dead(dead),
{
    let after = map.add(value);
    if map.free.len() > 0 {
        let index = map.free.last();
        assert(map.free[map.free.len() - 1] == index);
        assert forall|j: int| 0 <= j < after.free.len() implies (#[trigger] after.free[j])
            < after.slots.len() && after.slots[after.free[j] as int].value is None by {
            assert(after.free[j] == map.free[j]);
            assert(map.free[j] != map.free[map.free.len() - 1]);
        }
        assert forall|j: int, k: int| 0 <= j < k < after.free.len() implies after.free[j]
            != after.free[k] by {
            assert(after.free[j] == map.free[j]);
            assert(after.free[k] == map.free[k]);
        }
        if map.is_dead(dead) {
            if dead.index == index {
                assert(map.free.contains(index));
            } else if after.free.contains(dead.index) {
                let j = choose|j: int| 0 <= j < after.free.len() && after.free[j] == dead.index;
                assert(map.free[j] == dead.index);
            }
        }
    } else {
        assert forall|j: int| 0 <= j < after.free.len() implies (#[trigger] after.free[j])
            < after.slots.len() && after.slots[after.free[j] as int].value is None by {
            assert(after.free[j] == map.free[j]);
        }
    }
}

/// Making one more handle keeps the arena well formed, keeps what resolves
/// resolving, and leaves every dead handle dead.
pub proof fn lemma_retain<T>(
    map: ResourceMapView<T>,
    handle: ResourceHandle<T>,
    other: ResourceHandle<T>,
)
    requires
        map.wf(),
        map.resolves(handle),
    ensures
        map.retain(handle).wf(),
        map.retain(handle).resolves(other) == map.resolves(other),
        map.is_dead(other) ==> map.retain(handle).is_dead(other),
{
    let after = map.retain(handle);
    assert forall|j: int| 0 <= j < after.free.len() implies (#[trigger] after.free[j])
        < after.slots.len() && after.slots[after.free[j] as int].value is None by {
        assert(after.free[j] == map.free[j]);
    }
}

/// Dropping a handle keeps the arena well formed and leaves every dead handle
/// dead. The object stays while other handles to it are alive; with the last
/// one the dropped handle is dead.
pub proof fn lemma_release<T>(
    map: ResourceMapView<T>,
    handle: ResourceHandle<T>,
    dead: ResourceHandle<T>,
)
    requires
        map.wf(),
        map.resolves(handle),
    ensures
        map.release(handle).wf(),
        map.slots[handle.index as int].strong > 1 ==> map.release(handle).resolves(handle)
            && map.release(handle).slots[handle.index as int].strong
            == map.slots[handle.index as int].strong - 1,
        map.slots[handle.index as int].strong == 1 ==> map.release(handle).is_dead(handle),
        map.is_dead(dead) ==> map.release(handle).is_dead(dead),
{
    let after = map.release(handle);
    let slot = map.slots[handle.index as int];
    assert(!map.free.contains(handle.index)) by {
        if map.free.contains(handle.index) {
            let j = choose|j: int| 0 <= j < map.free.len() && map.free[j] == handle.index;
            assert(map.slots[map.free[j] as int].value is None);
        }
    }
    if slot.strong > 1 {
        assert forall|j: int| 0 <= j < after.free.len() implies (#[trigger] after.free[j])
            < after.slots.len() && after.slots[after.free[j] as int].value is None by {
            assert(after.free[j] == map.free[j]);
        }
    } else if slot.generation < u64::MAX {
        assert forall|j: int| 0 <= j < after.free.len() implies (#[trigger] after.free[j])
            < after.slots.len() && after.slots[after.free[j] as int].value is None by {
            if j < map.free.len() {
                assert(after.free[j] == map.free[j]);
            }
        }
        assert forall|j: int, k: int| 0 <= j < k < after.free.len() implies after.free[j]
            != after.free[k] by {
            assert(after.free[j] == map.free[j]);
            if k < map.free.len() {
                assert(after.free[k] == map.free[k]);
            } else {
                assert(map.free.contains(map.free[j]));
            }
        }
        if map.is_dead(dead) && dead.index != handle.index && after.free.contains(dead.index) {
            let j = choose|j: int| 0 <= j < after.free.len() && after.free[j] == dead.index;
            assert(map.free[j] == dead.index);
        }
    } else {
        assert forall|j: int| 0 <= j < after.free.len() implies (#[trigger] after.free[j])
            < after.slots.len() && after.slots[after.free[j] as int].value is None by {
            assert(after.free[j] == map.free[j]);
        }
    }
}

/// While fewer handles were dropped than are alive, each of them resolves; once
/// all are dropped, none resolves, and none ever will.
pub proof fn lemma_handles_keep_object_alive<T>(
    map: ResourceMapView<T>,
    handle: ResourceHandle<T>,
    dropped: nat,
)
    requires
        map.wf(),
        map.resolves(handle),
        dropped <= map.slots[handle.index as int].strong,
    ensures
        map.release_times(handle, dropped).wf(),
        dropped < map.slots[handle.index as int].strong ==> map.release_times(
            handle,
            dropped,
        ).resolves(handle),
        dropped == map.slots[handle.index as int].strong ==> map.release_times(
            handle,
            dropped,
        ).is_dead(handle) && !map.release_times(handle, dropped).resolves(handle),
    decreases dropped,
{
    if dropped > 0 {
        lemma_release(map, handle, handle);
        if map.slots[handle.index as int].strong > 1 {
            lemma_handles_keep_object_alive(map.release(handle), handle, (dropped - 1) as nat);
        } else {
            lemma_dead_handle_rejected(map.release(handle), handle);
            assert(map.release(handle).release_times(handle, 0) == map.release(handle));
        }
    }
}

/// When the last handle to an object is dropped and another object is added,
/// the new object takes the vacated slot in the next generation, and the old
/// handle does not resolve to it.
pub proof fn lemma_stale_handle_rejected<T>(
    map: ResourceMapView<T>,
    handle: ResourceHandle<T>,
    value: T,
)
    requires
        map.wf(),
        map.resolves(handle),
        map.slots[handle.index as int].strong == 1,
        handle.generation < u64::MAX,
    ensures
        map.release(handle).next_handle().index == handle.index,
        map.release(handle).next_handle().generation == handle.generation + 1,
        map.release(handle).add(value).resolves(map.release(handle).next_handle()),
        map.release(handle).add(value).resolution_error(handle) == Some(ResolutionError::Stale),
{
    let vacated = map.release(handle);
    lemma_release(map, handle, handle);
    lemma_add(vacated, value, handle);
    lemma_dead_handle_rejected(vacated.add(value), handle);
}

/// One request to an arena.
pub enum ArenaOp<T> {
    Add(T),
    CloneHandle(ResourceHandle<T>),
    DropHandle(ResourceHandle<T>),
}

impl<T> ResourceMapView<T> {
    /// Whether the arena has a slot for one more object.
    pub open spec fn has_room(self) -> bool {
        self.free.len() > 0 || self.slots.len() < usize::MAX
    }

    /// The arena after one request. A request with a handle that does not
    /// resolve changes nothing, nor does one that the machine cannot count.
    pub open spec fn apply(self, op: ArenaOp<T>) -> ResourceMapView<T> {
        match op {
            ArenaOp::Add(value) => if self.has_room() {
                self.add(value)
            } else {
                self
            },
            ArenaOp::CloneHandle(handle) => if self.resolves(handle)
                && self.slots[handle.index as int].strong < usize::MAX {
                self.retain(handle)
            } else {
                self
            },
            ArenaOp::DropHandle(handle) => if self.resolves(handle) {
                self.release(handle)
            } else {
                self
            },
        }
    }

    /// The arena after a run of requests, served in order.
    pub open spec fn run(self, ops: Seq<ArenaOp<T>>) -> ResourceMapView<T>
        decreases ops.len(),
    {
        if ops.len() == 0 {
            self
        } else {
            self.run(ops.drop_last()).apply(ops.last())
        }
    }
}

/// A dead handle stays dead: whatever is added, cloned and dropped afterwards,
/// it never resolves again.
pub proof fn lemma_dead_stays_dead<T>(
    map: ResourceMapView<T>,
    ops: Seq<ArenaOp<T>>,
    handle: ResourceHandle<T>,
)
    requires
        map.wf(),
        map.is_dead(handle),
    ensures
        map.run(ops).wf(),
        map.run(ops).is_dead(handle),
        !map.run(ops).resolves(handle),
    decreases ops.len(),
{
    if ops.len() > 0 {
        lemma_dead_stays_dead(map, ops.drop_last(), handle);
        let before = map.run(ops.drop_last());
        match ops.last() {
            ArenaOp::Add(value) => {
                if before.has_room() {
                    lemma_add(before, value, handle);
                }
            },
            ArenaOp::CloneHandle(other) => {
                if before.resolves(other) {
                    lemma_retain(before, other, handle);
                }
            },
            ArenaOp::DropHandle(other) => {
                if before.resolves(other) {
                    lemma_release(before, other, handle);
                }
            },
        }
    }
    lemma_dead_handle_rejected(map.run(ops), handle);
}

} // verus!
