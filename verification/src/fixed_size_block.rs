//! The fixed-size-block allocator: requests are rounded up to the nearest of
//! a few power-of-two block sizes, and freed blocks are kept on one list per
//! size (in the kernel, each freed block stores a list node in its first
//! bytes), so most allocations are a pop and most frees a push. Requests too
//! large for any block size go to a fallback first-fit heap from an outside
//! crate. This model keeps each block list as the plain addresses of its free
//! blocks.

use vstd::prelude::*;

use crate::allocator::BlockLayout;
use linked_list_allocator::Heap;

verus! {

/// Bytes the in-memory node of a free block occupies (one next pointer):
/// every block size can hold it.
pub const BLOCK_NODE_SIZE: usize = 8;

/// How many block sizes the allocator keeps lists for.
pub const BLOCK_SIZE_COUNT: usize = 9;

/// The block sizes. Each is a power of two, because each doubles as the
/// alignment of its blocks; the smallest still fits a node.
pub open spec fn spec_block_sizes() -> Seq<usize> {
    seq![8usize, 16usize, 32usize, 64usize, 128usize, 256usize, 512usize, 1024usize, 2048usize]
}

/// The block size at the given list index.
pub fn block_size(index: usize) -> (size: usize)
    requires
        index < BLOCK_SIZE_COUNT,
    ensures
        size == spec_block_sizes()[index as int],
{
    if index == 0 {
        8
    } else if index == 1 {
        16
    } else if index == 2 {
        32
    } else if index == 3 {
        64
    } else if index == 4 {
        128
    } else if index == 5 {
        256
    } else if index == 6 {
        512
    } else if index == 7 {
        1024
    } else {
        2048
    }
}

/// The block size a request needs: it must fit both the size and the
/// alignment, and a block's size is also its alignment.
pub open spec fn required_block_size(layout: BlockLayout) -> int {
    if layout.size >= layout.align {
        layout.size as int
    } else {
        layout.align as int
    }
}

/// The list that serves a request: the smallest block size that is large
/// enough, or none when the request exceeds the largest block size and must
/// go to the fallback heap.
pub open spec fn spec_list_index(layout: BlockLayout) -> Option<int> {
    let required = required_block_size(layout);
    if required <= 8 {
        Some(0int)
    } else if required <= 16 {
        Some(1int)
    } else if required <= 32 {
        Some(2int)
    } else if required <= 64 {
        Some(3int)
    } else if required <= 128 {
        Some(4int)
    } else if required <= 256 {
        Some(5int)
    } else if required <= 512 {
        Some(6int)
    } else if required <= 1024 {
        Some(7int)
    } else if required <= 2048 {
        Some(8int)
    } else {
        None
    }
}

/// Picks the list that serves a request: the first block size at least as
/// large as what the request needs.
pub fn list_index(layout: &BlockLayout) -> (r: Option<usize>)
    ensures
        r matches Some(index) ==> Some(index as int) == spec_list_index(*layout),
        r is None ==> spec_list_index(*layout) is None,
{
    let required = if layout.size >= layout.align {
        layout.size
    } else {
        layout.align
    };
    let mut index: usize = 0;
    while index < BLOCK_SIZE_COUNT
        invariant
            index <= BLOCK_SIZE_COUNT,
            required == required_block_size(*layout),
            forall|j: int| 0 <= j < index ==> spec_block_sizes()[j] < required,
        decreases BLOCK_SIZE_COUNT - index,
    {
        if block_size(index) >= required {
            return Some(index);
        }
        index = index + 1;
    }
    proof {
        assert(spec_block_sizes()[8] < required_block_size(*layout));
    }
    None
}

#[verifier::external_type_specification]
#[verifier::external_body]
pub struct ExHeap(Heap);

/// Relies on linked_list_allocator::Heap::empty: a heap that manages no
/// memory; every allocation on it fails until real memory is handed to it.
#[verifier::external_body]
fn heap_empty() -> Heap {
    Heap::empty()
}

/// Relies on linked_list_allocator::Heap::allocate_first_fit: takes the
/// first free block that fits the layout, or fails. A granted block is real
/// memory, so its address is never null. A size and alignment that form no
/// valid layout (alignment not a power of two, or the padded size
/// overflowing) are answered with the same failure.
#[verifier::external_body]
fn heap_first_fit(heap: &mut Heap, size: usize, align: usize) -> (r: Result<usize, ()>)
    ensures
        r is Ok ==> r->Ok_0 != 0,
{
    match core::alloc::Layout::from_size_align(size, align) {
        Ok(layout) => match heap.allocate_first_fit(layout) {
            Ok(block) => Ok(block.as_ptr() as usize),
            Err(()) => Err(()),
        },
        Err(_) => Err(()),
    }
}

/// What a deallocation decided: the block was cached on its size's list, or
/// it belongs to the fallback heap and must be returned there (an operation
/// on raw memory that the surrounding kernel performs).
#[derive(Clone, Copy, Debug, PartialEq, Eq, Structural)]
pub enum DeallocAction {
    Cached,
    ReturnToFallback,
}

/// The fixed-size-block allocator: one free list of block addresses per
/// block size, and the fallback heap for oversized requests.
pub struct FixedSizeBlockAllocator {
    list_heads: Vec<Vec<usize>>,
    fallback_allocator: Heap,
}

impl FixedSizeBlockAllocator {
    /// The free lists: for each block size, the addresses of its free
    /// blocks, most recently freed last.
    pub closed spec fn lists(self) -> Seq<Seq<usize>> {
        self.list_heads@.map_values(|list: Vec<usize>| list@)
    }

    /// One list per block size.
    pub open spec fn wf(self) -> bool {
        self.lists().len() == BLOCK_SIZE_COUNT
    }

    /// An allocator with no cached blocks and an empty fallback heap.
    pub fn new() -> (a: FixedSizeBlockAllocator)
        ensures
            a.wf(),
            forall|i: int| 0 <= i < BLOCK_SIZE_COUNT ==> (#[trigger] a.lists()[i]).len() == 0,
    {
        let mut list_heads: Vec<Vec<usize>> = Vec::new();
        let mut i: usize = 0;
        while i < BLOCK_SIZE_COUNT
            invariant
                i <= BLOCK_SIZE_COUNT,
                list_heads@.len() == i,
                forall|j: int| 0 <= j < i ==> (#[trigger] list_heads@[j]@).len() == 0,
            decreases BLOCK_SIZE_COUNT - i,
        {
            list_heads.push(Vec::new());
            i = i + 1;
        }
        FixedSizeBlockAllocator { list_heads, fallback_allocator: heap_empty() }
    }

    /// Sends a request to the fallback heap; the block lists stay as they
    /// are.
    fn fallback_alloc(&mut self, layout: BlockLayout) -> (r: Option<usize>)
        requires
            old(self).wf(),
        ensures
            final(self).wf(),
            final(self).lists() == old(self).lists(),
            r matches Some(addr) ==> addr != 0,
    {
        let result = heap_first_fit(&mut self.fallback_allocator, layout.size, layout.align);
        proof {
            assert(final(self).lists() =~~= old(self).lists());
        }
        match result {
            Ok(addr) => Some(addr),
            Err(()) => None,
        }
    }

    /// The allocation entry: a request that fits a block size pops a cached
    /// block from that size's list or, when the list is empty, asks the
    /// fallback heap for one whole block, sized and aligned to the block
    /// size; an oversized request goes to the fallback heap as it stands.
    pub fn allocate(&mut self, layout: BlockLayout) -> (r: Option<usize>)
        requires
            old(self).wf(),
        ensures
            final(self).wf(),
            ({
                match spec_list_index(layout) {
                    Some(index) => {
                        let list = old(self).lists()[index];
                        if list.len() > 0 {
                            r == Some(list.last()) && final(self).lists() == old(
                                self,
                            ).lists().update(index, list.drop_last())
                        } else {
                            final(self).lists() == old(self).lists() && (r matches Some(addr)
                                ==> addr != 0)
                        }
                    },
                    None => final(self).lists() == old(self).lists() && (r matches Some(addr)
                        ==> addr != 0),
                }
            }),
    {
        match list_index(&layout) {
            Some(index) => {
                let popped = self.list_heads[index].pop();
                proof {
                    assert forall|j: int| 0 <= j < BLOCK_SIZE_COUNT implies self.lists()[j]
                        == self.list_heads@[j]@ by {}
                }
                match popped {
                    Some(block_start) => {
                        proof {
                            assert(final(self).lists() =~~= old(self).lists().update(
                                index as int,
                                old(self).lists()[index as int].drop_last(),
                            ));
                        }
                        Some(block_start)
                    },
                    None => {
                        proof {
                            assert(self.lists() =~~= old(self).lists());
                        }
                        let size = block_size(index);
                        let align = size;
                        self.fallback_alloc(BlockLayout { size, align })
                    },
                }
            },
            None => self.fallback_alloc(layout),
        }
    }

    /// The deallocation entry: a block of one of the block sizes goes back
    /// onto its size's list (in the kernel, its first bytes get the list
    /// node, which every block size can hold); a block from the fallback
    /// heap is reported back to the caller to return, since giving memory
    /// back to that heap is a raw-memory operation outside this model.
    pub fn deallocate(&mut self, ptr: usize, layout: BlockLayout) -> (action: DeallocAction)
        requires
            old(self).wf(),
        ensures
            final(self).wf(),
            ({
                match spec_list_index(layout) {
                    Some(index) => action == DeallocAction::Cached && final(self).lists() == old(
                        self,
                    ).lists().update(index, old(self).lists()[index].push(ptr)),
                    None => action == DeallocAction::ReturnToFallback && final(self).lists()
                        == old(self).lists(),
                }
            }),
    {
        match list_index(&layout) {
            Some(index) => {
                proof {
                    // the block is large and aligned enough to store its
                    // list node
                    assert(BLOCK_NODE_SIZE <= spec_block_sizes()[index as int]);
                }
                self.list_heads[index].push(ptr);
                proof {
                    assert forall|j: int| 0 <= j < BLOCK_SIZE_COUNT implies self.lists()[j]
                        == self.list_heads@[j]@ by {}
                    assert(final(self).lists() =~~= old(self).lists().update(
                        index as int,
                        old(self).lists()[index as int].push(ptr),
                    ));
                }
                DeallocAction::Cached
            },
            None => DeallocAction::ReturnToFallback,
        }
    }
}

} // verus!
