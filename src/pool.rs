use vstd::prelude::*;

use crate::align::{align_up, checked_align_up};
use crate::error::AllocError;

verus! {

/// Number of slots in the block table.
pub const MAX_BLOCKS: usize = 1024;

/// One range of the pool, free or handed out.
#[derive(Clone, Copy, Debug, PartialEq, Eq, Structural)]
pub struct MemoryBlock {
    pub start: usize,
    pub size: usize,
    pub in_use: bool,
}

/// The block ends within the address space.
pub open spec fn slot_in_range(slot: Option<MemoryBlock>) -> bool {
    match slot {
        Some(b) => b.start + b.size <= usize::MAX,
        None => true,
    }
}

/// A free block that holds `size` bytes from its start rounded up to `align`.
pub open spec fn fits(slot: Option<MemoryBlock>, size: int, align: int) -> bool {
    match slot {
        Some(b) => {
            &&& !b.in_use
            &&& b.size >= size
            &&& align_up(b.start as int, align) + size <= b.start + b.size
        },
        None => false,
    }
}

/// Slot `i` is the first one, in table order, that `fits`.
pub open spec fn is_first_fit(slots: Seq<Option<MemoryBlock>>, size: int, align: int, i: int) -> bool {
    &&& 0 <= i < slots.len()
    &&& fits(slots[i], size, align)
    &&& forall|j: int| 0 <= j < i ==> !fits(#[trigger] slots[j], size, align)
}

/// Slot `i` is the first empty one.
pub open spec fn is_first_empty(slots: Seq<Option<MemoryBlock>>, i: int) -> bool {
    &&& 0 <= i < slots.len()
    &&& slots[i] is None
    &&& forall|j: int| 0 <= j < i ==> #[trigger] slots[j] is Some
}

/// A block that is in use and starts at `addr`.
pub open spec fn in_use_at(slot: Option<MemoryBlock>, addr: int) -> bool {
    match slot {
        Some(b) => b.in_use && b.start == addr,
        None => false,
    }
}

/// Slot `i` is the first one that holds a block in use starting at `addr`.
pub open spec fn is_first_in_use(slots: Seq<Option<MemoryBlock>>, addr: int, i: int) -> bool {
    &&& 0 <= i < slots.len()
    &&& in_use_at(slots[i], addr)
    &&& forall|j: int| 0 <= j < i ==> !in_use_at(#[trigger] slots[j], addr)
}

/// Some slot holds a block in use starting at `addr`.
pub open spec fn has_in_use(slots: Seq<Option<MemoryBlock>>, addr: int) -> bool {
    exists|i: int| 0 <= i < slots.len() && in_use_at(#[trigger] slots[i], addr)
}

/// A table of `MAX_BLOCKS` empty slots.
pub open spec fn empty_table() -> Seq<Option<MemoryBlock>> {
    Seq::new(MAX_BLOCKS as nat, |i: int| None::<MemoryBlock>)
}

/// Byte allocator that keeps its blocks in a table of `MAX_BLOCKS` slots and
/// serves each request from the first free block that can hold it.
///
/// A block that is handed out keeps its start and shrinks to the requested
/// size. What lay beyond the request is not recorded anywhere: that capacity
/// is lost to later requests, while the byte counts still include it.
pub struct LabByteAllocator {
    memory_pool_start: usize,
    memory_pool_size: usize,
    blocks: Vec<Option<MemoryBlock>>,
    total_used: usize,
}

impl LabByteAllocator {
    /// The block table, slot by slot.
    pub closed spec fn slots(&self) -> Seq<Option<MemoryBlock>> {
        self.blocks@
    }

    /// Start of the pool given to `init`.
    pub closed spec fn pool_start(&self) -> nat {
        self.memory_pool_start as nat
    }

    /// Size of the pool given to `init`.
    pub closed spec fn pool_size(&self) -> nat {
        self.memory_pool_size as nat
    }

    /// Bytes counted as in use.
    pub closed spec fn used(&self) -> nat {
        self.total_used as nat
    }

    /// The table has `MAX_BLOCKS` slots and every block ends within the address space.
    pub open spec fn wf(&self) -> bool {
        &&& self.slots().len() == MAX_BLOCKS
        &&& forall|i: int| 0 <= i < self.slots().len() ==> slot_in_range(#[trigger] self.slots()[i])
    }

    fn empty_blocks() -> (r: Vec<Option<MemoryBlock>>)
        ensures
            r@ == empty_table(),
    {
        let mut blocks: Vec<Option<MemoryBlock>> = Vec::new();
        let mut i: usize = 0;
        while i < MAX_BLOCKS
            invariant
                i <= MAX_BLOCKS,
                blocks@.len() == i,
                forall|j: int| 0 <= j < i ==> #[trigger] blocks@[j] is None,
            decreases MAX_BLOCKS - i,
        {
            blocks.push(None);
            i = i + 1;
        }
        assert(blocks@ =~= empty_table());
        blocks
    }

    /// An allocator with an empty table and an empty pool.
    pub fn new() -> (r: Self)
        ensures
            r.wf(),
            r.slots() == empty_table(),
            r.pool_start() == 0,
            r.pool_size() == 0,
            r.used() == 0,
    {
        LabByteAllocator {
            memory_pool_start: 0,
            memory_pool_size: 0,
            blocks: Self::empty_blocks(),
            total_used: 0,
        }
    }

    /// Takes `[start, start + size)` as the pool: the table is cleared and
    /// holds one free block over the whole pool, in slot 0.
    pub fn init(&mut self, start: usize, size: usize)
        requires
            start + size <= usize::MAX,
        ensures
            final(self).wf(),
            final(self).slots() == empty_table().update(
                0,
                Some(MemoryBlock { start, size, in_use: false }),
            ),
            final(self).pool_start() == start,
            final(self).pool_size() == size,
            final(self).used() == 0,
    {
        self.memory_pool_start = start;
        self.memory_pool_size = size;
        let mut blocks = Self::empty_blocks();
        blocks.set(0, Some(MemoryBlock { start, size, in_use: false }));
        self.blocks = blocks;
        self.total_used = 0;
    }
    /// Records `[start, start + size)` as a free block in the first empty
    /// slot. It is not merged with any other block, and the pool size stays
    /// as `init` set it. Fails, changing nothing, where every slot is taken.
    pub fn add_memory(&mut self, start: usize, size: usize) -> (r: Result<(), AllocError>)
        requires
            old(self).wf(),
            start + size <= usize::MAX,
        ensures
            final(self).wf(),
            r is Ok <==> exists|i: int| 0 <= i < old(self).slots().len() && #[trigger] old(self).slots()[i] is None,
            match r {
                Ok(_) => exists|i: int|
                    #![trigger old(self).slots()[i]]
                    is_first_empty(old(self).slots(), i) && final(self).slots() == old(
                        self,
                    ).slots().update(i, Some(MemoryBlock { start, size, in_use: false })),
                Err(e) => e == AllocError::NoMemory && *final(self) == *old(self),
            },
            final(self).pool_start() == old(self).pool_start(),
            final(self).pool_size() == old(self).pool_size(),
            final(self).used() == old(self).used(),
    {
        let mut i: usize = 0;
        while i < self.blocks.len()
            invariant
                old(self).wf(),
                *self == *old(self),
                i <= self.blocks.len(),
                start + size <= usize::MAX,
                forall|j: int| 0 <= j < i ==> #[trigger] self.slots()[j] is Some,
            decreases self.blocks.len() - i,
        {
            if self.blocks[i].is_none() {
                self.blocks.set(i, Some(MemoryBlock { start, size, in_use: false }));
                assert(is_first_empty(old(self).slots(), i as int));
                assert(forall|j: int|
                    0 <= j < self.slots().len() ==> slot_in_range(#[trigger] self.slots()[j])) by {
                    assert(forall|j: int|
                        0 <= j < old(self).slots().len() ==> slot_in_range(
                            #[trigger] old(self).slots()[j],
                        ));
                }
                return Ok(());
            }
            i = i + 1;
        }
        Err(AllocError::NoMemory)
    }

    /// Serves `size` bytes aligned to `align` from the first free block, in
    /// table order, that holds them. That block is marked in use and its size
    /// becomes `size`; the returned address is its start rounded up to
    /// `align`. Fails, changing nothing, where no free block holds the request.
    pub fn alloc_bytes(&mut self, size: usize, align: usize) -> (r: Result<usize, AllocError>)
        requires
            old(self).wf(),
            align > 0,
            old(self).used() + size <= usize::MAX,
        ensures
            final(self).wf(),
            r is Ok <==> exists|i: int|
                0 <= i < old(self).slots().len() && fits(#[trigger] old(self).slots()[i], size as int, align as int),
            match r {
                Ok(addr) => exists|i: int|
                    #![trigger old(self).slots()[i]]
                    {
                        &&& is_first_fit(old(self).slots(), size as int, align as int, i)
                        &&& addr == align_up(old(self).slots()[i]->Some_0.start as int, align as int)
                        &&& final(self).slots() == old(self).slots().update(
                            i,
                            Some(MemoryBlock { size, in_use: true, ..old(self).slots()[i]->Some_0 }),
                        )
                        &&& final(self).used() == old(self).used() + size
                    },
                Err(e) => e == AllocError::NoMemory && *final(self) == *old(self),
            },
            final(self).pool_start() == old(self).pool_start(),
            final(self).pool_size() == old(self).pool_size(),
    {
        let mut i: usize = 0;
        while i < self.blocks.len()
            invariant
                old(self).wf(),
                *self == *old(self),
                align > 0,
                old(self).used() + size <= usize::MAX,
                i <= self.blocks.len(),
                forall|j: int| 0 <= j < i ==> !fits(#[trigger] self.slots()[j], size as int, align as int),
            decreases self.blocks.len() - i,
        {
            if let Some(b) = self.blocks[i] {
                if !b.in_use && b.size >= size {
                    assert(slot_in_range(self.slots()[i as int]));
                    if let Some(aligned_start) = checked_align_up(b.start, align) {
                        if aligned_start <= usize::MAX - size && aligned_start + size <= b.start
                            + b.size {
                            self.blocks.set(i, Some(MemoryBlock { start: b.start, size, in_use: true }));
                            self.total_used = self.total_used + size;
                            assert(is_first_fit(old(self).slots(), size as int, align as int, i as int));
                            return Ok(aligned_start);
                        }
                    }
                }
            }
            i = i + 1;
        }
        Err(AllocError::NoMemory)
    }

    /// Frees the first block, in table order, that is in use and starts at
    /// `pos`, and takes `size` off the bytes in use. The block keeps its
    /// current size and is not merged with its neighbours. Where no block in
    /// use starts at `pos`, nothing changes.
    pub fn dealloc(&mut self, pos: usize, size: usize, align: usize)
        requires
            old(self).wf(),
            has_in_use(old(self).slots(), pos as int) ==> size <= old(self).used(),
        ensures
            final(self).wf(),
            has_in_use(old(self).slots(), pos as int) ==> exists|i: int|
                #![trigger old(self).slots()[i]]
                {
                    &&& is_first_in_use(old(self).slots(), pos as int, i)
                    &&& final(self).slots() == old(self).slots().update(
                        i,
                        Some(MemoryBlock { in_use: false, ..old(self).slots()[i]->Some_0 }),
                    )
                    &&& final(self).used() == old(self).used() - size
                },
            !has_in_use(old(self).slots(), pos as int) ==> *final(self) == *old(self),
            final(self).pool_start() == old(self).pool_start(),
            final(self).pool_size() == old(self).pool_size(),
    {
        let mut i: usize = 0;
        while i < self.blocks.len()
            invariant
                old(self).wf(),
                *self == *old(self),
                i <= self.blocks.len(),
                has_in_use(old(self).slots(), pos as int) ==> size <= old(self).used(),
                forall|j: int| 0 <= j < i ==> !in_use_at(#[trigger] self.slots()[j], pos as int),
            decreases self.blocks.len() - i,
        {
            if let Some(b) = self.blocks[i] {
                if b.start == pos && b.in_use {
                    assert(in_use_at(self.slots()[i as int], pos as int));
                    assert(is_first_in_use(old(self).slots(), pos as int, i as int));
                    self.blocks.set(i, Some(MemoryBlock { start: b.start, size: b.size, in_use: false }));
                    self.total_used = self.total_used - size;
                    return;
                }
            }
            i = i + 1;
        }
        assert(!has_in_use(old(self).slots(), pos as int));
    }

    /// Size of the pool given to `init`; blocks added later are not counted.
    pub fn total_bytes(&self) -> (r: usize)
        ensures
            r == self.pool_size(),
    {
        self.memory_pool_size
    }

    /// Bytes counted as in use.
    pub fn used_bytes(&self) -> (r: usize)
        ensures
            r == self.used(),
    {
        self.total_used
    }

    /// Pool size less the bytes in use.
    pub fn available_bytes(&self) -> (r: usize)
        requires
            self.used() <= self.pool_size(),
        ensures
            r == self.pool_size() - self.used(),
    {
        self.memory_pool_size - self.total_used
    }
}

} // verus!
