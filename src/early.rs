use vstd::prelude::*;
use vstd::arithmetic::div_mod::lemma_fundamental_div_mod;
use vstd::arithmetic::power2::pow2;
use vstd::bits::{lemma_usize_pow2_no_overflow, lemma_usize_shl_is_mul};

use crate::align::{align_down, align_up, checked_align_up, round_down};
use crate::error::AllocError;

verus! {

/// The four cursors of a dual-region allocator, as numbers.
pub struct EarlyRegion {
    pub start: nat,
    pub b_pos: nat,
    pub p_pos: nat,
    pub end: nat,
}

/// Allocator for the time before any other allocator works.
///
/// One range of memory is consumed from both ends: bytes forward from
/// `start`, whole pages backward from `end`.
///
/// ```text
/// [ bytes-used | avail-area | pages-used ]
/// |            | -->    <-- |            |
/// start       b_pos        p_pos       end
/// ```
///
/// Nothing is ever handed back: byte and page frees are accepted and ignored.
pub struct EarlyAllocator<const PAGE_SIZE: usize> {
    start: usize,
    b_pos: usize,
    p_pos: usize,
    end: usize,
}

impl<const PAGE_SIZE: usize> View for EarlyAllocator<PAGE_SIZE> {
    type V = EarlyRegion;

    closed spec fn view(&self) -> EarlyRegion {
        EarlyRegion {
            start: self.start as nat,
            b_pos: self.b_pos as nat,
            p_pos: self.p_pos as nat,
            end: self.end as nat,
        }
    }
}

impl<const PAGE_SIZE: usize> EarlyAllocator<PAGE_SIZE> {
    /// The cursors are ordered and the region lies within the address space.
    pub open spec fn wf(&self) -> bool {
        &&& self@.start <= self@.b_pos
        &&& self@.b_pos <= self@.p_pos
        &&& self@.p_pos <= self@.end
        &&& self@.end <= usize::MAX
    }

    /// An allocator with an empty region; `init` gives it one.
    pub fn new() -> (r: Self)
        ensures
            r.wf(),
            r@ == (EarlyRegion { start: 0, b_pos: 0, p_pos: 0, end: 0 }),
    {
        EarlyAllocator { start: 0, b_pos: 0, p_pos: 0, end: 0 }
    }

    /// Takes `[start, start + size)` as the region, all of it available.
    pub fn init(&mut self, start: usize, size: usize)
        requires
            start + size <= usize::MAX,
        ensures
            final(self).wf(),
            final(self)@ == (EarlyRegion {
                start: start as nat,
                b_pos: start as nat,
                p_pos: (start + size) as nat,
                end: (start + size) as nat,
            }),
    {
        self.start = start;
        self.end = start + size;
        self.b_pos = start;
        self.p_pos = self.end;
    }

    /// Always refused: this allocator serves one region for its whole life.
    pub fn add_memory(&mut self, start: usize, size: usize) -> (r: Result<(), AllocError>)
        ensures
            r == Err::<(), AllocError>(AllocError::NoMemory),
            *final(self) == *old(self),
    {
        Err(AllocError::NoMemory)
    }

    /// Bump-allocates `size` bytes aligned to `align` at the front of the
    /// available area. Fails, changing nothing, where the aligned block would
    /// reach past `p_pos`.
    pub fn alloc_bytes(&mut self, size: usize, align: usize) -> (r: Result<usize, AllocError>)
        requires
            old(self).wf(),
            align > 0,
        ensures
            final(self).wf(),
            old(self)@.b_pos <= final(self)@.b_pos,
            final(self)@.p_pos <= old(self)@.p_pos,
            r is Ok <==> align_up(old(self)@.b_pos as int, align as int) + size <= old(self)@.p_pos,
            match r {
                Ok(addr) => {
                    &&& addr == align_up(old(self)@.b_pos as int, align as int)
                    &&& final(self)@ == (EarlyRegion { b_pos: (addr + size) as nat, ..old(self)@ })
                },
                Err(e) => e == AllocError::NoMemory && *final(self) == *old(self),
            },
    {
        let alloc_start = match checked_align_up(self.b_pos, align) {
            Some(a) => a,
            None => return Err(AllocError::NoMemory),
        };
        if alloc_start > self.p_pos || size > self.p_pos - alloc_start {
            return Err(AllocError::NoMemory);
        }
        self.b_pos = alloc_start + size;
        Ok(alloc_start)
    }

    /// Does nothing: byte allocations are never reclaimed one by one.
    pub fn dealloc(&mut self, pos: usize, size: usize, align: usize)
        ensures
            *final(self) == *old(self),
    {
    }

    /// Size of the whole region in bytes.
    pub fn total_bytes(&self) -> (r: usize)
        requires
            self.wf(),
        ensures
            r == self@.end - self@.start,
    {
        self.end - self.start
    }

    /// Bytes taken by byte allocations.
    pub fn used_bytes(&self) -> (r: usize)
        requires
            self.wf(),
        ensures
            r == self@.b_pos - self@.start,
    {
        self.b_pos - self.start
    }

    /// Bytes between the two frontiers.
    pub fn available_bytes(&self) -> (r: usize)
        requires
            self.wf(),
        ensures
            r == self@.p_pos - self@.b_pos,
    {
        self.p_pos - self.b_pos
    }
    /// Takes `num_pages` pages from the back of the available area, the start
    /// rounded down to a multiple of `2^align_pow2`. Fails, changing nothing,
    /// where the block would start below `b_pos`.
    pub fn alloc_pages(&mut self, num_pages: usize, align_pow2: usize)
        -> (r: Result<usize, AllocError>)
        requires
            old(self).wf(),
            align_pow2 < usize::BITS,
        ensures
            final(self).wf(),
            final(self)@.b_pos == old(self)@.b_pos,
            final(self)@.p_pos <= old(self)@.p_pos,
            r is Ok <==> page_fit(old(self)@, num_pages * PAGE_SIZE, pow2(align_pow2 as nat) as int),
            match r {
                Ok(addr) => {
                    &&& addr == align_down(
                        old(self)@.p_pos - num_pages * PAGE_SIZE,
                        pow2(align_pow2 as nat) as int,
                    )
                    &&& final(self)@ == (EarlyRegion { p_pos: addr as nat, ..old(self)@ })
                },
                Err(e) => e == AllocError::NoMemory && *final(self) == *old(self),
            },
    {
        proof {
            lemma_usize_pow2_no_overflow(align_pow2 as nat);
            lemma_usize_shl_is_mul(1, align_pow2);
        }
        let align: usize = 1usize << align_pow2;
        let size = match num_pages.checked_mul(PAGE_SIZE) {
            Some(s) => s,
            None => return Err(AllocError::NoMemory),
        };
        if size > self.p_pos {
            return Err(AllocError::NoMemory);
        }
        let alloc_start = round_down(self.p_pos - size, align);
        if alloc_start < self.b_pos {
            return Err(AllocError::NoMemory);
        }
        self.p_pos = alloc_start;
        Ok(alloc_start)
    }

    /// Does nothing: pages are never reclaimed.
    pub fn dealloc_pages(&mut self, pos: usize, num_pages: usize)
        ensures
            *final(self) == *old(self),
    {
    }

    /// Whole pages in the region.
    pub fn total_pages(&self) -> (r: usize)
        requires
            self.wf(),
            PAGE_SIZE > 0,
        ensures
            r == (self@.end - self@.start) / (PAGE_SIZE as int),
    {
        (self.end - self.start) / PAGE_SIZE
    }

    /// Whole pages taken by page allocations.
    pub fn used_pages(&self) -> (r: usize)
        requires
            self.wf(),
            PAGE_SIZE > 0,
        ensures
            r == (self@.end - self@.p_pos) / (PAGE_SIZE as int),
    {
        (self.end - self.p_pos) / PAGE_SIZE
    }

    /// Whole pages between the two frontiers.
    pub fn available_pages(&self) -> (r: usize)
        requires
            self.wf(),
            PAGE_SIZE > 0,
        ensures
            r == (self@.p_pos - self@.b_pos) / (PAGE_SIZE as int),
    {
        (self.p_pos - self.b_pos) / PAGE_SIZE
    }
}

/// A page block of `size` bytes aligned to `align` fits below `p_pos` and
/// does not reach down into the byte area.
pub open spec fn page_fit(v: EarlyRegion, size: int, align: int) -> bool {
    size <= v.p_pos && align_down(v.p_pos - size, align) >= v.b_pos
}

/// The region splits into used bytes, available bytes and used pages: where
/// the page area is a whole number of pages, used bytes plus available bytes
/// plus used pages times the page size is the size of the region.
pub proof fn lemma_accounting<const PAGE_SIZE: usize>(a: &EarlyAllocator<PAGE_SIZE>)
    requires
        a.wf(),
        PAGE_SIZE > 0,
        (a@.end - a@.p_pos) % (PAGE_SIZE as int) == 0,
    ensures
        (a@.b_pos - a@.start) + (a@.p_pos - a@.b_pos) + ((a@.end - a@.p_pos) / (PAGE_SIZE as int))
            * PAGE_SIZE == a@.end - a@.start,
{
    lemma_fundamental_div_mod(a@.end - a@.p_pos, PAGE_SIZE as int);
}

} // verus!
