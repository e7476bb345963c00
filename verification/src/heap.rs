//! The memory of one domain as a sequence of blocks in address order, and what
//! handing out and taking back does to it.

use vstd::prelude::*;

verus! {

/// One stretch of a domain's memory: free, or in use by one allocation.
#[derive(Clone, Copy, Debug, PartialEq, Eq, Structural)]
pub struct Block {
    pub offset: u64,
    pub size: u64,
    pub free: bool,
}

/// How many bytes lie between `offset` and the next multiple of `alignment`.
/// An alignment of zero asks for nothing.
pub open spec fn padding(offset: u64, alignment: u64) -> u64 {
    if alignment == 0 || offset % alignment == 0 {
        0
    } else {
        (alignment - offset % alignment) as u64
    }
}

/// Whether `block` is free and holds `size` bytes from an aligned offset on.
pub open spec fn fits(block: Block, size: u64, alignment: u64) -> bool {
    &&& block.free
    &&& size <= block.size
    &&& padding(block.offset, alignment) <= block.size - size
}

/// The first block from `from` on that fits the request.
pub open spec fn first_fit(blocks: Seq<Block>, size: u64, alignment: u64, from: int) -> Option<int>
    decreases blocks.len() - from,
{
    if from < 0 || from >= blocks.len() {
        None
    } else if fits(blocks[from], size, alignment) {
        Some(from)
    } else {
        first_fit(blocks, size, alignment, from + 1)
    }
}

/// How many bytes of `blocks` are free.
pub open spec fn free_bytes(blocks: Seq<Block>) -> nat
    decreases blocks.len(),
{
    if blocks.len() == 0 {
        0
    } else {
        free_bytes(blocks.drop_last()) + if blocks.last().free {
            blocks.last().size as nat
        } else {
            0
        }
    }
}

/// How many bytes of `blocks` are in use.
pub open spec fn used_bytes(blocks: Seq<Block>) -> nat
    decreases blocks.len(),
{
    if blocks.len() == 0 {
        0
    } else {
        used_bytes(blocks.drop_last()) + if blocks.last().free {
            0
        } else {
            blocks.last().size as nat
        }
    }
}

/// Whether each block is not empty and begins where the one before it ends.
pub open spec fn chained(blocks: Seq<Block>) -> bool {
    &&& forall|i: int| 0 <= i < blocks.len() ==> (#[trigger] blocks[i]).size > 0
    &&& forall|i: int, j: int|
        0 <= i && j == i + 1 && j < blocks.len() ==> (#[trigger] blocks[i]).offset
            + blocks[i].size == (#[trigger] blocks[j]).offset
}

/// Whether `blocks` tile the first `capacity` bytes: they are chained, the first
/// begins at zero, and the last ends at `capacity`.
pub open spec fn tiles(blocks: Seq<Block>, capacity: u64) -> bool {
    &&& chained(blocks)
    &&& blocks.len() == 0 ==> capacity == 0
    &&& blocks.len() > 0 ==> blocks[0].offset == 0 && blocks.last().offset + blocks.last().size
        == capacity
}

/// The index of the block in use at `offset` with `size` bytes, if there is one.
pub open spec fn find_used(blocks: Seq<Block>, offset: u64, size: u64, from: int) -> Option<int>
    decreases blocks.len() - from,
{
    if from < 0 || from >= blocks.len() {
        None
    } else if !blocks[from].free && blocks[from].offset == offset && blocks[from].size == size {
        Some(from)
    } else {
        find_used(blocks, offset, size, from + 1)
    }
}

/// `blocks` with the block at `index` cut into padding, the allocation and the
/// rest, as far as padding and rest are not empty.
pub open spec fn carve(blocks: Seq<Block>, index: int, size: u64, alignment: u64) -> Seq<Block> {
    let block = blocks[index];
    let pad = padding(block.offset, alignment);
    let start = (block.offset + pad) as u64;
    let rest = (block.size - pad - size) as u64;
    let used = Block { offset: start, size, free: false };
    let head = if pad > 0 {
        seq![Block { offset: block.offset, size: pad, free: true }, used]
    } else {
        seq![used]
    };
    let cut = if rest > 0 {
        head.push(Block { offset: (start + size) as u64, size: rest, free: true })
    } else {
        head
    };
    blocks.take(index) + cut + blocks.skip(index + 1)
}

/// `blocks` with the block at `index` and the one behind it made one, where
/// both are free.
pub open spec fn merge_next(blocks: Seq<Block>, index: int) -> Seq<Block> {
    if 0 <= index && index + 1 < blocks.len() && blocks[index].free && blocks[index + 1].free {
        blocks.update(
            index,
            Block {
                offset: blocks[index].offset,
                size: (blocks[index].size + blocks[index + 1].size) as u64,
                free: true,
            },
        ).remove(index + 1)
    } else {
        blocks
    }
}

/// `blocks` with the block at `index` set free and made one with its free
/// neighbours.
pub open spec fn set_free(blocks: Seq<Block>, index: int) -> Seq<Block> {
    let freed = blocks.update(
        index,
        Block { offset: blocks[index].offset, size: blocks[index].size, free: true },
    );
    merge_next(merge_next(freed, index), index - 1)
}

/// The free bytes and the used bytes of two stretches laid end to end are the
/// sums of theirs.
pub proof fn lemma_bytes_concat(a: Seq<Block>, b: Seq<Block>)
    ensures
        free_bytes(a + b) == free_bytes(a) + free_bytes(b),
        used_bytes(a + b) == used_bytes(a) + used_bytes(b),
    decreases b.len(),
{
    if b.len() == 0 {
        assert(a + b =~= a);
    } else {
        lemma_bytes_concat(a, b.drop_last());
        assert((a + b).drop_last() =~= a + b.drop_last());
    }
}

/// The bytes of a stretch of one block.
pub proof fn lemma_bytes_single(block: Block)
    ensures
        free_bytes(seq![block]) == if block.free {
            block.size as nat
        } else {
            0
        },
        used_bytes(seq![block]) == if block.free {
            0
        } else {
            block.size as nat
        },
{
    assert(seq![block].drop_last() =~= Seq::<Block>::empty());
    assert(free_bytes(seq![block].drop_last()) == 0);
    assert(used_bytes(seq![block].drop_last()) == 0);
}

/// Blocks that tile a range hold exactly its bytes, free and used together.
pub proof fn lemma_bytes_total(blocks: Seq<Block>, capacity: u64)
    requires
        tiles(blocks, capacity),
    ensures
        free_bytes(blocks) + used_bytes(blocks) == capacity,
    decreases blocks.len(),
{
    if blocks.len() > 0 {
        let front = blocks.drop_last();
        let last = blocks.last();
        assert(blocks[blocks.len() - 1] == last);
        assert(tiles(front, last.offset)) by {
            assert forall|i: int| 0 <= i < front.len() implies (#[trigger] front[i]).size
                > 0 by {
                assert(front[i] == blocks[i]);
            }
            assert forall|i: int, j: int| 0 <= i && j == i + 1 && j < front.len() implies (
            #[trigger] front[i]).offset + front[i].size == (#[trigger] front[j]).offset by {
                assert(front[i] == blocks[i]);
                assert(front[j] == blocks[j]);
            }
            if front.len() == 0 {
                assert(blocks[0] == last);
            } else {
                assert(front[0] == blocks[0]);
                assert(front.last() == blocks[blocks.len() - 2]);
            }
        }
        lemma_bytes_total(front, last.offset);
    }
}

/// Replacing one block by some blocks changes the bytes by the difference.
pub proof fn lemma_bytes_splice(blocks: Seq<Block>, index: int, with: Seq<Block>)
    requires
        0 <= index < blocks.len(),
    ensures
        free_bytes(blocks.take(index) + with + blocks.skip(index + 1)) + free_bytes(
            seq![blocks[index]],
        ) == free_bytes(blocks) + free_bytes(with),
        used_bytes(blocks.take(index) + with + blocks.skip(index + 1)) + used_bytes(
            seq![blocks[index]],
        ) == used_bytes(blocks) + used_bytes(with),
{
    let head = blocks.take(index);
    let tail = blocks.skip(index + 1);
    assert(blocks =~= head + seq![blocks[index]] + tail);
    lemma_bytes_concat(head, seq![blocks[index]]);
    lemma_bytes_concat(head + seq![blocks[index]], tail);
    lemma_bytes_concat(head, with);
    lemma_bytes_concat(head + with, tail);
}

/// Replacing a block by a chain of blocks that covers the same bytes keeps the tiling.
pub proof fn lemma_splice_tiles(blocks: Seq<Block>, capacity: u64, index: int, cut: Seq<Block>)
    requires
        tiles(blocks, capacity),
        0 <= index < blocks.len(),
        cut.len() > 0,
        chained(cut),
        cut[0].offset == blocks[index].offset,
        cut.last().offset + cut.last().size == blocks[index].offset + blocks[index].size,
    ensures
        tiles(blocks.take(index) + cut + blocks.skip(index + 1), capacity),
{
    let after = blocks.take(index) + cut + blocks.skip(index + 1);
    let shift = cut.len() - 1;
    assert(after.len() == blocks.len() + shift);
    assert(cut[cut.len() - 1] == cut.last());
    assert forall|i: int| 0 <= i < after.len() implies (#[trigger] after[i]).size > 0 by {
        if i < index {
            assert(after[i] == blocks[i]);
        } else if i < index + cut.len() {
            assert(after[i] == cut[i - index]);
        } else {
            assert(after[i] == blocks[i - shift]);
        }
    }
    assert forall|i: int, j: int| 0 <= i && j == i + 1 && j < after.len() implies (
    #[trigger] after[i]).offset + after[i].size == (#[trigger] after[j]).offset by {
        if j < index {
            assert(after[i] == blocks[i]);
            assert(after[j] == blocks[j]);
        } else if i < index {
            assert(after[i] == blocks[i]);
            assert(after[j] == cut[0]);
            assert(blocks[i].offset + blocks[i].size == blocks[index].offset);
        } else if j < index + cut.len() {
            assert(after[i] == cut[i - index]);
            assert(after[j] == cut[j - index]);
        } else if i < index + cut.len() {
            assert(after[i] == cut.last());
            assert(after[j] == blocks[index + 1]);
            assert(blocks[index].offset + blocks[index].size == blocks[index + 1].offset);
        } else {
            assert(after[i] == blocks[i - shift]);
            assert(after[j] == blocks[j - shift]);
        }
    }
    if index == 0 {
        assert(after[0] == cut[0]);
    } else {
        assert(after[0] == blocks[0]);
    }
    if index == blocks.len() - 1 {
        assert(after.last() == cut.last());
        assert(blocks.last() == blocks[index]);
    } else {
        assert(after.last() == blocks[blocks.len() - 1]);
    }
}

/// Cutting an allocation out of a block that fits it keeps the tiling and takes
/// exactly the allocation's bytes from the free ones.
pub proof fn lemma_carve(blocks: Seq<Block>, capacity: u64, index: int, size: u64, alignment: u64)
    requires
        tiles(blocks, capacity),
        0 <= index < blocks.len(),
        fits(blocks[index], size, alignment),
        size > 0,
    ensures
        tiles(carve(blocks, index, size, alignment), capacity),
        free_bytes(carve(blocks, index, size, alignment)) + size == free_bytes(blocks),
        used_bytes(carve(blocks, index, size, alignment)) == used_bytes(blocks) + size,
{
    let block = blocks[index];
    let pad = padding(block.offset, alignment);
    let start = (block.offset + pad) as u64;
    let rest = (block.size - pad - size) as u64;
    let used = Block { offset: start, size, free: false };
    let pad_block = Block { offset: block.offset, size: pad, free: true };
    let rest_block = Block { offset: (start + size) as u64, size: rest, free: true };
    let head = if pad > 0 {
        seq![pad_block, used]
    } else {
        seq![used]
    };
    let cut = if rest > 0 {
        head.push(rest_block)
    } else {
        head
    };
    assert(block.offset + block.size <= capacity) by {
        lemma_block_in_range(blocks, capacity, index);
    }
    lemma_bytes_single(block);
    lemma_bytes_single(used);
    lemma_bytes_single(pad_block);
    lemma_bytes_single(rest_block);
    assert(free_bytes(head) == pad && used_bytes(head) == size) by {
        if pad > 0 {
            assert(head =~= seq![pad_block] + seq![used]);
            lemma_bytes_concat(seq![pad_block], seq![used]);
        }
    }
    assert(free_bytes(cut) == pad + rest && used_bytes(cut) == size) by {
        if rest > 0 {
            assert(cut =~= head + seq![rest_block]);
            lemma_bytes_concat(head, seq![rest_block]);
        }
    }
    lemma_bytes_splice(blocks, index, cut);
    lemma_splice_tiles(blocks, capacity, index, cut);
}

/// Every block of a tiling ends within the capacity.
pub proof fn lemma_block_in_range(blocks: Seq<Block>, capacity: u64, index: int)
    requires
        tiles(blocks, capacity),
        0 <= index < blocks.len(),
    ensures
        blocks[index].offset + blocks[index].size <= capacity,
    decreases blocks.len() - index,
{
    if index + 1 < blocks.len() {
        lemma_block_in_range(blocks, capacity, index + 1);
        assert(blocks[index].offset + blocks[index].size == blocks[index + 1].offset);
        assert(blocks[index + 1].size > 0);
    } else {
        assert(blocks[index] == blocks.last());
    }
}

/// Making two free neighbours one keeps the tiling and the bytes.
pub proof fn lemma_merge_next(blocks: Seq<Block>, capacity: u64, index: int)
    requires
        tiles(blocks, capacity),
    ensures
        tiles(merge_next(blocks, index), capacity),
        free_bytes(merge_next(blocks, index)) == free_bytes(blocks),
        used_bytes(merge_next(blocks, index)) == used_bytes(blocks),
{
    if 0 <= index && index + 1 < blocks.len() && blocks[index].free && blocks[index + 1].free {
        let first = blocks[index];
        let second = blocks[index + 1];
        lemma_block_in_range(blocks, capacity, index + 1);
        assert(first.offset + first.size == second.offset);
        let merged = Block {
            offset: first.offset,
            size: (first.size + second.size) as u64,
            free: true,
        };
        let after = merge_next(blocks, index);
        let head = blocks.take(index);
        let tail = blocks.skip(index + 2);
        assert(after =~= head + seq![merged] + tail);
        assert(blocks =~= head + seq![first] + seq![second] + tail);
        lemma_bytes_single(first);
        lemma_bytes_single(second);
        lemma_bytes_single(merged);
        lemma_bytes_concat(head, seq![first]);
        lemma_bytes_concat(head + seq![first], seq![second]);
        lemma_bytes_concat(head + seq![first] + seq![second], tail);
        lemma_bytes_concat(head, seq![merged]);
        lemma_bytes_concat(head + seq![merged], tail);
        assert forall|i: int| 0 <= i < after.len() implies (#[trigger] after[i]).size > 0 by {
            if i < index {
                assert(after[i] == blocks[i]);
            } else if i > index {
                assert(after[i] == blocks[i + 1]);
            }
        }
        assert forall|i: int, j: int| 0 <= i && j == i + 1 && j < after.len() implies (
        #[trigger] after[i]).offset + after[i].size == (#[trigger] after[j]).offset by {
            if j < index {
                assert(after[i] == blocks[i]);
                assert(after[j] == blocks[j]);
            } else if j == index {
                assert(after[i] == blocks[i]);
                assert(blocks[i].offset + blocks[i].size == blocks[index].offset);
            } else if i == index {
                assert(after[j] == blocks[index + 2]);
                assert(blocks[index + 1].offset + blocks[index + 1].size == blocks[index
                    + 2].offset);
            } else {
                assert(after[i] == blocks[i + 1]);
                assert(after[j] == blocks[j + 1]);
            }
        }
        if index == 0 {
            assert(after[0] == merged);
        } else {
            assert(after[0] == blocks[0]);
        }
        if index + 2 == blocks.len() {
            assert(after.last() == merged);
            assert(blocks.last() == second);
        } else {
            assert(after.last() == blocks[blocks.len() - 1]);
        }
    }
}

/// Setting a used block free keeps the tiling and gives exactly its bytes back.
pub proof fn lemma_set_free(blocks: Seq<Block>, capacity: u64, index: int)
    requires
        tiles(blocks, capacity),
        0 <= index < blocks.len(),
        !blocks[index].free,
    ensures
        tiles(set_free(blocks, index), capacity),
        free_bytes(set_free(blocks, index)) == free_bytes(blocks) + blocks[index].size,
        used_bytes(set_free(blocks, index)) + blocks[index].size == used_bytes(blocks),
{
    let block = blocks[index];
    let free_block = Block { offset: block.offset, size: block.size, free: true };
    let freed = blocks.update(index, free_block);
    assert(freed =~= blocks.take(index) + seq![free_block] + blocks.skip(index + 1));
    assert(chained(seq![free_block])) by {
        assert(block.size > 0);
    }
    lemma_splice_tiles(blocks, capacity, index, seq![free_block]);
    lemma_bytes_splice(blocks, index, seq![free_block]);
    lemma_bytes_single(block);
    lemma_bytes_single(free_block);
    lemma_merge_next(freed, capacity, index);
    lemma_merge_next(merge_next(freed, index), capacity, index - 1);
}

/// An offset with its padding added is a multiple of the alignment, and the
/// padding is less than the alignment.
pub proof fn lemma_padding_aligns(offset: u64, alignment: u64)
    requires
        alignment > 0,
    ensures
        (offset + padding(offset, alignment)) % (alignment as int) == 0,
        padding(offset, alignment) < alignment,
{
    let a = alignment as int;
    let o = offset as int;
    let r = o % a;
    vstd::arithmetic::div_mod::lemma_fundamental_div_mod(o, a);
    vstd::arithmetic::div_mod::lemma_mod_bound(o, a);
    if r != 0 {
        assert(o + (a - r) == a * (o / a + 1)) by (nonlinear_arith)
            requires
                o == a * (o / a) + r,
        ;
        vstd::arithmetic::div_mod::lemma_mod_multiples_basic(o / a + 1, a);
        assert((o / a + 1) * a == a * (o / a + 1)) by (nonlinear_arith);
    }
}

/// The memory of one domain, for the purpose of its contracts.
pub struct HeapView {
    pub capacity: u64,
    /// The host address that the domain's first byte is mapped at, if it is mapped.
    pub mapped_at: Option<u64>,
    pub blocks: Seq<Block>,
}

impl HeapView {
    /// A heap of `capacity` bytes that are all free, in one block.
    pub open spec fn fresh(capacity: u64, mapped_at: Option<u64>) -> HeapView {
        HeapView {
            capacity,
            mapped_at,
            blocks: if capacity == 0 {
                Seq::<Block>::empty()
            } else {
                seq![Block { offset: 0, size: capacity, free: true }]
            },
        }
    }

    pub open spec fn wf(self) -> bool {
        &&& tiles(self.blocks, self.capacity)
        &&& self.mapped_at is Some ==> self.mapped_at->Some_0 + self.capacity <= u64::MAX
    }

    pub open spec fn free_capacity(self) -> nat {
        free_bytes(self.blocks)
    }

    /// Whether an allocation of `size` bytes at `offset` is in use.
    pub open spec fn is_allocated(self, offset: u64, size: u64) -> bool {
        find_used(self.blocks, offset, size, 0) is Some
    }

    /// The host address of the byte at `offset`, where the domain is mapped.
    pub open spec fn address_of(self, offset: u64) -> Option<u64> {
        match self.mapped_at {
            Some(base) => Some((base + offset) as u64),
            None => None,
        }
    }

    /// Where an allocation of `size` bytes with `alignment` begins, if the heap
    /// has room for it.
    pub open spec fn allocation_offset(self, size: u64, alignment: u64) -> Option<u64> {
        match first_fit(self.blocks, size, alignment, 0) {
            Some(index) => Some(
                (self.blocks[index].offset + padding(self.blocks[index].offset, alignment)) as u64,
            ),
            None => None,
        }
    }

    /// The heap after `size` bytes with `alignment` were asked for.
    pub open spec fn allocate(self, size: u64, alignment: u64) -> HeapView {
        if size == 0 {
            self
        } else {
            match first_fit(self.blocks, size, alignment, 0) {
                Some(index) => HeapView {
                    blocks: carve(self.blocks, index, size, alignment),
                    ..self
                },
                None => self,
            }
        }
    }

    /// The heap after the allocation of `size` bytes at `offset` was given back.
    pub open spec fn deallocate(self, offset: u64, size: u64) -> HeapView {
        match find_used(self.blocks, offset, size, 0) {
            Some(index) => HeapView { blocks: set_free(self.blocks, index), ..self },
            None => self,
        }
    }
}

/// Where `first_fit` finds a block, the block is there and fits, and none
/// before it does.
pub proof fn lemma_first_fit(blocks: Seq<Block>, size: u64, alignment: u64, from: int)
    requires
        0 <= from,
    ensures
        match first_fit(blocks, size, alignment, from) {
            Some(index) => from <= index < blocks.len() && fits(blocks[index], size, alignment)
                && forall|k: int| from <= k < index ==> !fits(#[trigger] blocks[k], size, alignment),
            None => forall|k: int|
                from <= k < blocks.len() ==> !fits(#[trigger] blocks[k], size, alignment),
        },
    decreases blocks.len() - from,
{
    if from < blocks.len() && !fits(blocks[from], size, alignment) {
        lemma_first_fit(blocks, size, alignment, from + 1);
    }
}

/// Where `find_used` finds a block, the block is there, in use, and the one
/// asked for.
pub proof fn lemma_find_used(blocks: Seq<Block>, offset: u64, size: u64, from: int)
    requires
        0 <= from,
    ensures
        match find_used(blocks, offset, size, from) {
            Some(index) => from <= index < blocks.len() && !blocks[index].free
                && blocks[index].offset == offset && blocks[index].size == size,
            None => true,
        },
    decreases blocks.len() - from,
{
    if from < blocks.len() && !(!blocks[from].free && blocks[from].offset == offset
        && blocks[from].size == size) {
        lemma_find_used(blocks, offset, size, from + 1);
    }
}

/// Asking for memory keeps the heap well formed. The free capacity goes down by
/// what was asked for where there is room, and stays where there is none; what
/// is handed out lies within the heap at an aligned offset.
pub proof fn lemma_allocate(heap: HeapView, size: u64, alignment: u64)
    requires
        heap.wf(),
    ensures
        heap.allocate(size, alignment).wf(),
        size > 0 && heap.allocation_offset(size, alignment) is Some ==> {
            &&& heap.allocate(size, alignment).free_capacity() + size == heap.free_capacity()
            &&& heap.allocation_offset(size, alignment)->Some_0 + size <= heap.capacity
            &&& alignment > 0 ==> heap.allocation_offset(size, alignment)->Some_0 % alignment
                == 0
        },
        size == 0 || heap.allocation_offset(size, alignment) is None ==> heap.allocate(
            size,
            alignment,
        ) == heap,
{
    lemma_first_fit(heap.blocks, size, alignment, 0);
    if size > 0 {
        match first_fit(heap.blocks, size, alignment, 0) {
            Some(index) => {
                lemma_carve(heap.blocks, heap.capacity, index, size, alignment);
                lemma_block_in_range(heap.blocks, heap.capacity, index);
                if alignment > 0 {
                    lemma_padding_aligns(heap.blocks[index].offset, alignment);
                }
            },
            None => {},
        }
    }
}

/// Giving an allocation back keeps the heap well formed. The free capacity goes
/// up by the allocation's size where it was in use, and stays where it was not.
pub proof fn lemma_deallocate(heap: HeapView, offset: u64, size: u64)
    requires
        heap.wf(),
    ensures
        heap.deallocate(offset, size).wf(),
        heap.is_allocated(offset, size) ==> heap.deallocate(offset, size).free_capacity()
            == heap.free_capacity() + size,
        !heap.is_allocated(offset, size) ==> heap.deallocate(offset, size) == heap,
{
    lemma_find_used(heap.blocks, offset, size, 0);
    match find_used(heap.blocks, offset, size, 0) {
        Some(index) => {
            lemma_set_free(heap.blocks, heap.capacity, index);
        },
        None => {},
    }
}

/// One request to a heap.
pub enum HeapOp {
    Allocate { size: u64, alignment: u64 },
    Deallocate { offset: u64, size: u64 },
}

impl HeapView {
    /// The heap after one request.
    pub open spec fn apply(self, op: HeapOp) -> HeapView {
        match op {
            HeapOp::Allocate { size, alignment } => self.allocate(size, alignment),
            HeapOp::Deallocate { offset, size } => self.deallocate(offset, size),
        }
    }

    /// How many bytes one request hands out.
    pub open spec fn hands_out(self, op: HeapOp) -> nat {
        match op {
            HeapOp::Allocate { size, alignment } => if self.allocation_offset(size, alignment)
                is Some {
                size as nat
            } else {
                0
            },
            HeapOp::Deallocate { .. } => 0,
        }
    }

    /// How many bytes one request takes back.
    pub open spec fn takes_back(self, op: HeapOp) -> nat {
        match op {
            HeapOp::Allocate { .. } => 0,
            HeapOp::Deallocate { offset, size } => if self.is_allocated(offset, size) {
                size as nat
            } else {
                0
            },
        }
    }

    /// The heap after a run of requests, served in order.
    pub open spec fn run(self, ops: Seq<HeapOp>) -> HeapView
        decreases ops.len(),
    {
        if ops.len() == 0 {
            self
        } else {
            self.run(ops.drop_last()).apply(ops.last())
        }
    }

    /// How many bytes a run of requests hands out in all.
    pub open spec fn handed_out(self, ops: Seq<HeapOp>) -> nat
        decreases ops.len(),
    {
        if ops.len() == 0 {
            0
        } else {
            self.handed_out(ops.drop_last()) + self.run(ops.drop_last()).hands_out(ops.last())
        }
    }

    /// How many bytes a run of requests takes back in all.
    pub open spec fn taken_back(self, ops: Seq<HeapOp>) -> nat
        decreases ops.len(),
    {
        if ops.len() == 0 {
            0
        } else {
            self.taken_back(ops.drop_last()) + self.run(ops.drop_last()).takes_back(ops.last())
        }
    }
}

/// Over any run of requests, in any order, the free capacity changes by
/// exactly what was taken back less what was handed out.
pub proof fn lemma_free_capacity_accounting(heap: HeapView, ops: Seq<HeapOp>)
    requires
        heap.wf(),
    ensures
        heap.run(ops).wf(),
        heap.run(ops).capacity == heap.capacity,
        heap.run(ops).free_capacity() + heap.handed_out(ops) == heap.free_capacity()
            + heap.taken_back(ops),
    decreases ops.len(),
{
    if ops.len() > 0 {
        lemma_free_capacity_accounting(heap, ops.drop_last());
        let before = heap.run(ops.drop_last());
        match ops.last() {
            HeapOp::Allocate { size, alignment } => {
                lemma_allocate(before, size, alignment);
            },
            HeapOp::Deallocate { offset, size } => {
                lemma_deallocate(before, offset, size);
            },
        }
    }
}

/// An allocation that was just handed out is in use, and giving it back
/// restores the free capacity.
pub proof fn lemma_allocate_then_deallocate(heap: HeapView, size: u64, alignment: u64)
    requires
        heap.wf(),
        size > 0,
        heap.allocation_offset(size, alignment) is Some,
    ensures
        heap.allocate(size, alignment).is_allocated(
            heap.allocation_offset(size, alignment)->Some_0,
            size,
        ),
        heap.allocate(size, alignment).deallocate(
            heap.allocation_offset(size, alignment)->Some_0,
            size,
        ).free_capacity() == heap.free_capacity(),
{
    let after = heap.allocate(size, alignment);
    let offset = heap.allocation_offset(size, alignment)->Some_0;
    lemma_first_fit(heap.blocks, size, alignment, 0);
    let index = first_fit(heap.blocks, size, alignment, 0)->Some_0;
    let at = if padding(heap.blocks[index].offset, alignment) > 0 {
        index + 1
    } else {
        index
    };
    assert(after.blocks[at] == Block { offset, size, free: false });
    lemma_find_used_exists(after.blocks, offset, size, 0, at);
    lemma_allocate(heap, size, alignment);
    lemma_deallocate(after, offset, size);
}

/// Where a used block with the given offset and size stands at or behind
/// `from`, `find_used` finds one.
pub proof fn lemma_find_used_exists(
    blocks: Seq<Block>,
    offset: u64,
    size: u64,
    from: int,
    at: int,
)
    requires
        0 <= from <= at < blocks.len(),
        !blocks[at].free,
        blocks[at].offset == offset,
        blocks[at].size == size,
    ensures
        find_used(blocks, offset, size, from) is Some,
    decreases at - from,
{
    if from < at && !(!blocks[from].free && blocks[from].offset == offset && blocks[from].size
        == size) {
        lemma_find_used_exists(blocks, offset, size, from + 1, at);
    }
}

/// The blocks in use, in address order.
pub open spec fn used_blocks(blocks: Seq<Block>) -> Seq<Block>
    decreases blocks.len(),
{
    if blocks.len() == 0 {
        Seq::empty()
    } else if blocks.last().free {
        used_blocks(blocks.drop_last())
    } else {
        used_blocks(blocks.drop_last()).push(blocks.last())
    }
}

/// How many bytes the blocks have together.
pub open spec fn total_size(blocks: Seq<Block>) -> nat
    decreases blocks.len(),
{
    if blocks.len() == 0 {
        0
    } else {
        total_size(blocks.drop_last()) + blocks.last().size as nat
    }
}

/// Whether each block begins behind the one before it.
pub open spec fn increasing(blocks: Seq<Block>) -> bool {
    forall|j: int, k: int|
        0 <= j < k < blocks.len() ==> (#[trigger] blocks[j]).offset < (#[trigger] blocks[k]).offset
}

/// In a chain, a later block begins where an earlier one ends, or behind that.
pub proof fn lemma_chain_order(blocks: Seq<Block>, i: int, j: int)
    requires
        chained(blocks),
        0 <= i < j < blocks.len(),
    ensures
        blocks[i].offset + blocks[i].size <= blocks[j].offset,
    decreases j - i,
{
    if i + 1 < j {
        lemma_chain_order(blocks, i, j - 1);
        assert(blocks[j - 1].offset + blocks[j - 1].size == blocks[j].offset);
        assert(blocks[j - 1].size > 0);
    } else {
        assert(blocks[i].offset + blocks[i].size == blocks[j].offset);
    }
}

/// The blocks in use of a chain are exactly its blocks that are not free, they
/// come in address order, and their bytes are the bytes in use.
pub proof fn lemma_used_blocks(blocks: Seq<Block>)
    requires
        chained(blocks),
    ensures
        used_bytes(blocks) == total_size(used_blocks(blocks)),
        increasing(used_blocks(blocks)),
        forall|x: Block| #[trigger]
            used_blocks(blocks).contains(x) <==> (blocks.contains(x) && !x.free),
    decreases blocks.len(),
{
    if blocks.len() > 0 {
        let front = blocks.drop_last();
        let last = blocks.last();
        assert(chained(front)) by {
            assert forall|i: int| 0 <= i < front.len() implies (#[trigger] front[i]).size
                > 0 by {
                assert(front[i] == blocks[i]);
            }
            assert forall|i: int, j: int| 0 <= i && j == i + 1 && j < front.len() implies (
            #[trigger] front[i]).offset + front[i].size == (#[trigger] front[j]).offset by {
                assert(front[i] == blocks[i]);
                assert(front[j] == blocks[j]);
            }
        }
        lemma_used_blocks(front);
        let before = used_blocks(front);
        let after = used_blocks(blocks);
        assert forall|x: Block| #[trigger] after.contains(x) <==> (blocks.contains(x)
            && !x.free) by {
            if after.contains(x) {
                let k = choose|k: int| 0 <= k < after.len() && after[k] == x;
                if k < before.len() {
                    assert(before[k] == x);
                    assert(before.contains(x));
                    let i = choose|i: int| 0 <= i < front.len() && front[i] == x;
                    assert(blocks[i] == x);
                } else {
                    assert(x == last);
                    assert(blocks[blocks.len() - 1] == x);
                }
            }
            if blocks.contains(x) && !x.free {
                let i = choose|i: int| 0 <= i < blocks.len() && blocks[i] == x;
                if i < front.len() {
                    assert(front[i] == x);
                    assert(before.contains(x));
                    let k = choose|k: int| 0 <= k < before.len() && before[k] == x;
                    assert(after[k] == x);
                } else {
                    assert(x == last);
                    assert(after[after.len() - 1] == x);
                }
            }
        }
        if !last.free {
            assert(after.drop_last() =~= before);
            assert forall|j: int, k: int| 0 <= j < k < after.len() implies (
            #[trigger] after[j]).offset < (#[trigger] after[k]).offset by {
                if k < before.len() {
                    assert(after[j] == before[j]);
                    assert(after[k] == before[k]);
                } else {
                    assert(after[j] == before[j]);
                    assert(before.contains(before[j]));
                    let i = choose|i: int| 0 <= i < front.len() && front[i] == before[j];
                    assert(blocks[i] == before[j]);
                    lemma_chain_order(blocks, i, blocks.len() - 1);
                    assert(blocks[i].size > 0);
                }
            }
        }
    }
}

/// Two sequences of blocks in address order that hold the same blocks are the same.
pub proof fn lemma_increasing_unique(a: Seq<Block>, b: Seq<Block>)
    requires
        increasing(a),
        increasing(b),
        forall|x: Block| #[trigger] a.contains(x) == b.contains(x),
    ensures
        a == b,
    decreases a.len(),
{
    if a.len() == 0 {
        if b.len() > 0 {
            assert(b.contains(b[0]));
            assert(a.contains(b[0]));
        }
        assert(a =~= b);
    } else {
        let la = a.last();
        assert(a[a.len() - 1] == la);
        assert(a.contains(la));
        assert(b.contains(la));
        let lb = b.last();
        assert(b[b.len() - 1] == lb);
        assert(b.contains(lb));
        assert(a.contains(lb));
        let ka = choose|k: int| 0 <= k < a.len() && a[k] == lb;
        let kb = choose|k: int| 0 <= k < b.len() && b[k] == la;
        assert(lb.offset <= la.offset);
        assert(la.offset <= lb.offset);
        assert(ka == a.len() - 1);
        assert(la == lb);
        let fa = a.drop_last();
        let fb = b.drop_last();
        assert forall|x: Block| #[trigger] fa.contains(x) == fb.contains(x) by {
            if fa.contains(x) {
                let j = choose|j: int| 0 <= j < fa.len() && fa[j] == x;
                assert(a[j] == x);
                assert(a.contains(x));
                let m = choose|m: int| 0 <= m < b.len() && b[m] == x;
                assert(m < b.len() - 1);
                assert(fb[m] == x);
            }
            if fb.contains(x) {
                let j = choose|j: int| 0 <= j < fb.len() && fb[j] == x;
                assert(b[j] == x);
                assert(b.contains(x));
                assert(a.contains(x) == b.contains(x));
                let m = choose|m: int| 0 <= m < a.len() && a[m] == x;
                assert(m < a.len() - 1);
                assert(fa[m] == x);
            }
        }
        assert(increasing(fa)) by {
            assert forall|j: int, k: int| 0 <= j < k < fa.len() implies (
            #[trigger] fa[j]).offset < (#[trigger] fa[k]).offset by {
                assert(fa[j] == a[j]);
                assert(fa[k] == a[k]);
            }
        }
        assert(increasing(fb)) by {
            assert forall|j: int, k: int| 0 <= j < k < fb.len() implies (
            #[trigger] fb[j]).offset < (#[trigger] fb[k]).offset by {
                assert(fb[j] == b[j]);
                assert(fb[k] == b[k]);
            }
        }
        lemma_increasing_unique(fa, fb);
        assert(a =~= fa.push(la));
        assert(b =~= fb.push(lb));
    }
}

impl HeapView {
    /// Whether the same allocations are in use in both heaps.
    pub open spec fn same_allocations(self, other: HeapView) -> bool {
        forall|offset: u64, size: u64| #[trigger]
            self.is_allocated(offset, size) == other.is_allocated(offset, size)
    }
}

/// The free capacity of a heap depends on nothing but the allocations in use:
/// whatever was handed out and taken back in between, and in whatever order,
/// two heaps of one capacity with the same allocations in use have the same
/// free capacity.
pub proof fn lemma_free_capacity_of_allocations(a: HeapView, b: HeapView)
    requires
        a.wf(),
        b.wf(),
        a.capacity == b.capacity,
        a.same_allocations(b),
    ensures
        a.free_capacity() == b.free_capacity(),
{
    lemma_used_blocks(a.blocks);
    lemma_used_blocks(b.blocks);
    let ua = used_blocks(a.blocks);
    let ub = used_blocks(b.blocks);
    assert forall|x: Block| #[trigger] ua.contains(x) == ub.contains(x) by {
        if ua.contains(x) {
            let i = choose|i: int| 0 <= i < a.blocks.len() && a.blocks[i] == x;
            lemma_find_used_exists(a.blocks, x.offset, x.size, 0, i);
            assert(a.is_allocated(x.offset, x.size));
            assert(b.is_allocated(x.offset, x.size));
            lemma_find_used(b.blocks, x.offset, x.size, 0);
            let j = find_used(b.blocks, x.offset, x.size, 0)->Some_0;
            assert(b.blocks[j] == x);
            assert(b.blocks.contains(x));
        }
        if ub.contains(x) {
            let i = choose|i: int| 0 <= i < b.blocks.len() && b.blocks[i] == x;
            lemma_find_used_exists(b.blocks, x.offset, x.size, 0, i);
            assert(b.is_allocated(x.offset, x.size));
            assert(a.is_allocated(x.offset, x.size));
            lemma_find_used(a.blocks, x.offset, x.size, 0);
            let j = find_used(a.blocks, x.offset, x.size, 0)->Some_0;
            assert(a.blocks[j] == x);
            assert(a.blocks.contains(x));
        }
    }
    lemma_increasing_unique(ua, ub);
    lemma_bytes_total(a.blocks, a.capacity);
    lemma_bytes_total(b.blocks, b.capacity);
}

/// Any run of requests, in any order, that leaves in use exactly the
/// allocations that were in use before it, as a run of allocations that are
/// each given back does, leaves the free capacity as it was.
pub proof fn lemma_allocator_round_trip(heap: HeapView, ops: Seq<HeapOp>)
    requires
        heap.wf(),
        heap.run(ops).same_allocations(heap),
    ensures
        heap.run(ops).free_capacity() == heap.free_capacity(),
{
    lemma_free_capacity_accounting(heap, ops);
    lemma_free_capacity_of_allocations(heap.run(ops), heap);
}

/// An allocation is in use exactly when its block is among the blocks.
pub proof fn lemma_allocated_is_block(blocks: Seq<Block>, offset: u64, size: u64)
    ensures
        find_used(blocks, offset, size, 0) is Some <==> blocks.contains(
            Block { offset, size, free: false },
        ),
{
    let block = Block { offset, size, free: false };
    lemma_find_used(blocks, offset, size, 0);
    if find_used(blocks, offset, size, 0) is Some {
        let i = find_used(blocks, offset, size, 0)->Some_0;
        assert(blocks[i] == block);
    }
    if blocks.contains(block) {
        let i = choose|i: int| 0 <= i < blocks.len() && blocks[i] == block;
        lemma_find_used_exists(blocks, offset, size, 0, i);
    }
}

/// Cutting an allocation out of a free block adds the allocation to those in
/// use and changes no other.
pub proof fn lemma_carve_allocations(blocks: Seq<Block>, index: int, size: u64, alignment: u64)
    requires
        0 <= index < blocks.len(),
        fits(blocks[index], size, alignment),
    ensures
        forall|x: Block|
            !x.free ==> (#[trigger] carve(blocks, index, size, alignment).contains(x) <==> (
            blocks.contains(x) || x == (Block {
                offset: (blocks[index].offset + padding(blocks[index].offset, alignment)) as u64,
                size,
                free: false,
            }))),
{
    let block = blocks[index];
    let pad = padding(block.offset, alignment);
    let start = (block.offset + pad) as u64;
    let rest = (block.size - pad - size) as u64;
    let used = Block { offset: start, size, free: false };
    let pad_block = Block { offset: block.offset, size: pad, free: true };
    let rest_block = Block { offset: (start + size) as u64, size: rest, free: true };
    let head = if pad > 0 {
        seq![pad_block, used]
    } else {
        seq![used]
    };
    let cut = if rest > 0 {
        head.push(rest_block)
    } else {
        head
    };
    let after = carve(blocks, index, size, alignment);
    let shift = cut.len() - 1;
    let at = if pad > 0 {
        index + 1
    } else {
        index
    };
    assert(after[at] == used);
    assert forall|x: Block| !x.free implies (#[trigger] after.contains(x) <==> (blocks.contains(x)
        || x == used)) by {
        if after.contains(x) {
            let k = choose|k: int| 0 <= k < after.len() && after[k] == x;
            if k < index {
                assert(blocks[k] == x);
            } else if k < index + cut.len() {
                assert(after[k] == cut[k - index]);
            } else {
                assert(blocks[k - shift] == x);
            }
        }
        if blocks.contains(x) {
            let j = choose|j: int| 0 <= j < blocks.len() && blocks[j] == x;
            if j < index {
                assert(after[j] == x);
            } else {
                assert(j > index);
                assert(after[j + shift] == x);
            }
        }
    }
}

/// Making two free neighbours one changes no allocation in use.
pub proof fn lemma_merge_next_allocations(blocks: Seq<Block>, index: int)
    ensures
        forall|x: Block|
            !x.free ==> (#[trigger] merge_next(blocks, index).contains(x) <==> blocks.contains(x)),
{
    let after = merge_next(blocks, index);
    assert forall|x: Block| !x.free implies (#[trigger] after.contains(x) <==> blocks.contains(
        x,
    )) by {
        if 0 <= index && index + 1 < blocks.len() && blocks[index].free && blocks[index + 1].free {
            if after.contains(x) {
                let k = choose|k: int| 0 <= k < after.len() && after[k] == x;
                if k < index {
                    assert(blocks[k] == x);
                } else {
                    assert(k > index);
                    assert(blocks[k + 1] == x);
                }
            }
            if blocks.contains(x) {
                let j = choose|j: int| 0 <= j < blocks.len() && blocks[j] == x;
                if j < index {
                    assert(after[j] == x);
                } else {
                    assert(j > index + 1);
                    assert(after[j - 1] == x);
                }
            }
        }
    }
}

/// Setting a used block of a chain free takes its allocation out of those in
/// use and changes no other.
pub proof fn lemma_set_free_allocations(blocks: Seq<Block>, index: int)
    requires
        chained(blocks),
        0 <= index < blocks.len(),
        !blocks[index].free,
    ensures
        forall|x: Block|
            !x.free ==> (#[trigger] set_free(blocks, index).contains(x) <==> (blocks.contains(x)
                && x != blocks[index])),
{
    let block = blocks[index];
    let free_block = Block { offset: block.offset, size: block.size, free: true };
    let freed = blocks.update(index, free_block);
    let merged = merge_next(freed, index);
    lemma_merge_next_allocations(freed, index);
    lemma_merge_next_allocations(merged, index - 1);
    assert forall|x: Block| !x.free implies (#[trigger] set_free(blocks, index).contains(x) <==> (
    blocks.contains(x) && x != block)) by {
        assert(set_free(blocks, index).contains(x) <==> merged.contains(x));
        assert(merged.contains(x) <==> freed.contains(x));
        if freed.contains(x) {
            let k = choose|k: int| 0 <= k < freed.len() && freed[k] == x;
            assert(k != index);
            assert(blocks[k] == x);
            if k < index {
                lemma_chain_order(blocks, k, index);
            } else {
                lemma_chain_order(blocks, index, k);
            }
            assert(blocks[k].size > 0);
            assert(block.size > 0);
        }
        if blocks.contains(x) && x != block {
            let j = choose|j: int| 0 <= j < blocks.len() && blocks[j] == x;
            assert(freed[j] == x);
        }
    }
}

/// What is in use after memory was asked for: what was in use before, and the
/// allocation that was handed out, if one was.
pub proof fn lemma_allocate_allocations(heap: HeapView, size: u64, alignment: u64)
    requires
        heap.wf(),
    ensures
        forall|o: u64, s: u64| #[trigger]
            heap.allocate(size, alignment).is_allocated(o, s) <==> (heap.is_allocated(o, s) || (
            size > 0 && heap.allocation_offset(size, alignment) == Some(o) && s == size)),
{
    lemma_first_fit(heap.blocks, size, alignment, 0);
    let after = heap.allocate(size, alignment);
    assert forall|o: u64, s: u64| #[trigger]
        after.is_allocated(o, s) <==> (heap.is_allocated(o, s) || (size > 0
            && heap.allocation_offset(size, alignment) == Some(o) && s == size)) by {
        lemma_allocated_is_block(after.blocks, o, s);
        lemma_allocated_is_block(heap.blocks, o, s);
        if size > 0 && first_fit(heap.blocks, size, alignment, 0) is Some {
            let index = first_fit(heap.blocks, size, alignment, 0)->Some_0;
            lemma_carve_allocations(heap.blocks, index, size, alignment);
            assert(after.blocks.contains(Block { offset: o, size: s, free: false }) <==> (
            heap.blocks.contains(Block { offset: o, size: s, free: false }) || (Block {
                offset: o,
                size: s,
                free: false,
            }) == (Block {
                offset: (heap.blocks[index].offset + padding(
                    heap.blocks[index].offset,
                    alignment,
                )) as u64,
                size,
                free: false,
            })));
        }
    }
}

/// What is in use after an allocation was given back: what was in use before,
/// but for that allocation.
pub proof fn lemma_deallocate_allocations(heap: HeapView, offset: u64, size: u64)
    requires
        heap.wf(),
    ensures
        forall|o: u64, s: u64| #[trigger]
            heap.deallocate(offset, size).is_allocated(o, s) <==> (heap.is_allocated(o, s) && !(o
                == offset && s == size)),
{
    lemma_find_used(heap.blocks, offset, size, 0);
    let after = heap.deallocate(offset, size);
    assert forall|o: u64, s: u64| #[trigger]
        after.is_allocated(o, s) <==> (heap.is_allocated(o, s) && !(o == offset && s
            == size)) by {
        lemma_allocated_is_block(after.blocks, o, s);
        lemma_allocated_is_block(heap.blocks, o, s);
        match find_used(heap.blocks, offset, size, 0) {
            Some(index) => {
                lemma_set_free_allocations(heap.blocks, index);
                assert(after.blocks.contains(Block { offset: o, size: s, free: false }) <==> (
                heap.blocks.contains(Block { offset: o, size: s, free: false }) && (Block {
                    offset: o,
                    size: s,
                    free: false,
                }) != heap.blocks[index]));
            },
            None => {
                lemma_allocated_is_block(heap.blocks, offset, size);
            },
        }
    }
}

/// Handing out an allocation and taking it back, with whatever requests for
/// other allocations in between that leave those in use as they were, leaves
/// in use what was in use before.
pub proof fn lemma_pair_restores_allocations(heap: HeapView, size: u64, alignment: u64)
    requires
        heap.wf(),
        size > 0,
        heap.allocation_offset(size, alignment) is Some,
    ensures
        heap.allocate(size, alignment).deallocate(
            heap.allocation_offset(size, alignment)->Some_0,
            size,
        ).same_allocations(heap),
{
    let offset = heap.allocation_offset(size, alignment)->Some_0;
    let middle = heap.allocate(size, alignment);
    let after = middle.deallocate(offset, size);
    lemma_allocate(heap, size, alignment);
    lemma_allocate_allocations(heap, size, alignment);
    lemma_deallocate_allocations(middle, offset, size);
    assert forall|o: u64, s: u64| #[trigger]
        after.is_allocated(o, s) == heap.is_allocated(o, s) by {
        assert(middle.is_allocated(o, s) <==> (heap.is_allocated(o, s) || (o == offset && s
            == size)));
        if heap.is_allocated(offset, size) {
            // the block handed out was free before, so it was not in use
            lemma_first_fit(heap.blocks, size, alignment, 0);
            lemma_allocated_is_block(heap.blocks, offset, size);
            let index = first_fit(heap.blocks, size, alignment, 0)->Some_0;
            let j = choose|j: int|
                0 <= j < heap.blocks.len() && heap.blocks[j] == (Block {
                    offset,
                    size,
                    free: false,
                });
            lemma_block_in_range(heap.blocks, heap.capacity, index);
            if j < index {
                lemma_chain_order(heap.blocks, j, index);
            } else if j > index {
                lemma_chain_order(heap.blocks, index, j);
            }
            assert(false);
        }
    }
}

} // verus!
