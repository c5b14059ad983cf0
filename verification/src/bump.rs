//! The bump allocator: hands out memory linearly by moving a boundary
//! between used and unused space. Freeing only counts allocations down; the
//! whole heap is reclaimed at once when the count reaches zero.

use vstd::prelude::*;

use crate::allocator::{align_up, spec_align_up, BlockLayout};

verus! {

/// The bump allocator's bookkeeping: the heap bounds, the boundary of unused
/// memory, and how many allocations are outstanding.
pub struct BumpAllocator {
    heap_start: usize,
    heap_end: usize,
    next: usize,
    allocations: usize,
}

impl BumpAllocator {
    /// Lowest address of the managed heap.
    pub closed spec fn heap_start(self) -> int {
        self.heap_start as int
    }

    /// One past the highest address of the managed heap.
    pub closed spec fn heap_end(self) -> int {
        self.heap_end as int
    }

    /// The boundary: everything below is handed out, everything from here up
    /// is free.
    pub closed spec fn next(self) -> int {
        self.next as int
    }

    /// How many allocations are outstanding.
    pub closed spec fn allocations(self) -> int {
        self.allocations as int
    }

    /// The boundary stays within the heap.
    pub open spec fn wf(self) -> bool {
        self.heap_start() <= self.next() <= self.heap_end()
    }

    /// An allocator that manages no memory yet.
    pub fn new() -> (a: BumpAllocator)
        ensures
            a.wf(),
            a.heap_start() == 0,
            a.heap_end() == 0,
            a.next() == 0,
            a.allocations() == 0,
    {
        BumpAllocator { heap_start: 0, heap_end: 0, next: 0, allocations: 0 }
    }

    /// Adopts the given heap region. The caller vouches that the region is
    /// real, unused memory; this bookkeeping only records its bounds.
    pub fn init(&mut self, heap_start: usize, heap_size: usize)
        requires
            heap_start + heap_size <= usize::MAX,
        ensures
            final(self).wf(),
            final(self).heap_start() == heap_start,
            final(self).heap_end() == heap_start + heap_size,
            final(self).next() == heap_start,
            final(self).allocations() == old(self).allocations(),
    {
        self.heap_start = heap_start;
        self.heap_end = heap_start + heap_size;
        self.next = heap_start;
    }

    /// Hands out the next aligned address if the request still fits below
    /// the heap's end; the boundary moves past the new allocation. A request
    /// that does not fit changes nothing and returns no address.
    pub fn allocate(&mut self, layout: BlockLayout) -> (r: Option<usize>)
        requires
            old(self).wf(),
            layout.wf(),
            old(self).next() + layout.align <= usize::MAX,
            old(self).allocations() < usize::MAX,
        ensures
            final(self).wf(),
            final(self).heap_start() == old(self).heap_start(),
            final(self).heap_end() == old(self).heap_end(),
            ({
                let alloc_start = spec_align_up(old(self).next(), layout.align as int);
                let alloc_end = alloc_start + layout.size;
                if alloc_end <= old(self).heap_end() {
                    r == Some(alloc_start as usize) && final(self).next() == alloc_end && final(self).allocations() == old(self).allocations() + 1
                } else {
                    r is None && final(self).next() == old(self).next() && final(self).allocations() == old(self).allocations()
                }
            }),
    {
        let alloc_start = align_up(self.next, layout.align);
        let alloc_end_opt = alloc_start.checked_add(layout.size);
        match alloc_end_opt {
            None => None,
            Some(alloc_end) => {
                if alloc_end > self.heap_end {
                    None
                } else {
                    self.next = alloc_end;
                    self.allocations = self.allocations + 1;
                    Some(alloc_start)
                }
            },
        }
    }

    /// Counts one allocation as returned. Only when the last outstanding
    /// allocation is returned does the boundary reset, reclaiming the whole
    /// heap at once; which address was freed does not matter to this
    /// allocator.
    pub fn dealloc(&mut self)
        requires
            old(self).wf(),
            old(self).allocations() >= 1,
        ensures
            final(self).wf(),
            final(self).heap_start() == old(self).heap_start(),
            final(self).heap_end() == old(self).heap_end(),
            final(self).allocations() == old(self).allocations() - 1,
            final(self).allocations() == 0 ==> final(self).next() == final(self).heap_start(),
            final(self).allocations() != 0 ==> final(self).next() == old(self).next(),
    {
        self.allocations = self.allocations - 1;
        if self.allocations == 0 {
            self.next = self.heap_start;
        }
    }
}

} // verus!
