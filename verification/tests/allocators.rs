//! The three heap allocators and the shared layout arithmetic.

use ruost::allocator::{align_up, heap_page_range, BlockLayout, HEAP_SIZE, HEAP_START};
use ruost::bump::BumpAllocator;
use ruost::fixed_size_block::{list_index, DeallocAction, FixedSizeBlockAllocator};
use ruost::linked_list::{LinkedListAllocator, NODE_SIZE};

#[test]
fn align_up_rounds_to_the_next_boundary() {
    assert_eq!(align_up(0, 8), 0);
    assert_eq!(align_up(1, 8), 8);
    assert_eq!(align_up(8, 8), 8);
    assert_eq!(align_up(9, 8), 16);
    assert_eq!(align_up(4095, 4096), 4096);
    assert_eq!(align_up(4096, 4096), 4096);
    assert_eq!(align_up(100, 1), 100);
}

#[test]
fn heap_pages_cover_the_heap() {
    let (first, last) = heap_page_range();
    assert_eq!(first, HEAP_START / 4096);
    assert_eq!(last, (HEAP_START + HEAP_SIZE - 1) / 4096);
    // 100 KiB of heap needs 25 pages
    assert_eq!(last - first + 1, 25);
}

#[test]
fn bump_allocates_linearly_and_reclaims_all_at_once() {
    let mut bump = BumpAllocator::new();
    bump.init(0x1000, 0x100);
    let first = bump.allocate(BlockLayout { size: 16, align: 8 }).unwrap();
    assert_eq!(first, 0x1000);
    let second = bump.allocate(BlockLayout { size: 5, align: 16 }).unwrap();
    assert_eq!(second, 0x1010);
    let third = bump.allocate(BlockLayout { size: 8, align: 16 }).unwrap();
    // the 5-byte allocation ended at 0x1015; the next 16-aligned address is
    // 0x1020
    assert_eq!(third, 0x1020);
    // a request past the end of the 0x100-byte heap is refused
    assert_eq!(bump.allocate(BlockLayout { size: 0x100, align: 8 }), None);
    // freeing two of three does not reclaim; freeing the last does
    bump.dealloc();
    bump.dealloc();
    bump.dealloc();
    let reused = bump.allocate(BlockLayout { size: 1, align: 1 }).unwrap();
    assert_eq!(reused, 0x1000);
}

#[test]
fn free_list_serves_first_fit_and_keeps_the_tail() {
    let mut heap = LinkedListAllocator::new();
    heap.init(0x2000, 0x100);
    // an aligned 32-byte request: served from the front of the region, the
    // remaining 0xe0 bytes stay on the list
    let addr = heap.allocate(BlockLayout { size: 32, align: 8 }).unwrap();
    assert_eq!(addr, 0x2000);
    let next = heap.allocate(BlockLayout { size: 32, align: 8 }).unwrap();
    assert_eq!(next, 0x2020);
    // freeing puts the block back; the very next fitting request reuses it
    heap.deallocate(addr, BlockLayout { size: 32, align: 8 });
    let reused = heap.allocate(BlockLayout { size: 32, align: 8 }).unwrap();
    assert_eq!(reused, addr);
}

#[test]
fn free_list_refuses_what_no_region_fits() {
    let mut heap = LinkedListAllocator::new();
    heap.init(0x2000, 0x40);
    // larger than the whole region
    assert_eq!(heap.allocate(BlockLayout { size: 0x48, align: 8 }), None);
    // fits the region, but would strand a tail smaller than a list node
    assert_eq!(heap.allocate(BlockLayout { size: 0x38, align: 8 }), None);
    // taking the region whole is fine
    assert_eq!(heap.allocate(BlockLayout { size: 0x40, align: 8 }), Some(0x2000));
}

#[test]
fn free_list_size_align_pads_requests() {
    // a tiny request grows to one list node
    let (size, align) = LinkedListAllocator::size_align(BlockLayout { size: 1, align: 1 });
    assert_eq!(size, NODE_SIZE);
    assert_eq!(align, 8);
    // a large aligned request is padded to its own alignment
    let (size, align) = LinkedListAllocator::size_align(BlockLayout { size: 70, align: 64 });
    assert_eq!(size, 128);
    assert_eq!(align, 64);
}

#[test]
fn block_sizes_are_chosen_by_size_and_alignment() {
    assert_eq!(list_index(&BlockLayout { size: 1, align: 1 }), Some(0));
    assert_eq!(list_index(&BlockLayout { size: 8, align: 8 }), Some(0));
    assert_eq!(list_index(&BlockLayout { size: 9, align: 8 }), Some(1));
    assert_eq!(list_index(&BlockLayout { size: 12, align: 32 }), Some(2));
    assert_eq!(list_index(&BlockLayout { size: 2048, align: 8 }), Some(8));
    assert_eq!(list_index(&BlockLayout { size: 2049, align: 8 }), None);
}

#[test]
fn freed_blocks_are_cached_and_reused() {
    let mut blocks = FixedSizeBlockAllocator::new();
    // nothing cached and no fallback memory: allocation fails
    assert_eq!(blocks.allocate(BlockLayout { size: 24, align: 8 }), None);
    // a freed 32-byte block goes onto its size's list...
    let action = blocks.deallocate(0x3000, BlockLayout { size: 24, align: 8 });
    assert_eq!(action, DeallocAction::Cached);
    // ...and the next fitting request pops exactly that block
    assert_eq!(blocks.allocate(BlockLayout { size: 24, align: 8 }), Some(0x3000));
    assert_eq!(blocks.allocate(BlockLayout { size: 24, align: 8 }), None);
    // an oversized block is not cached: it belongs to the fallback heap
    let action = blocks.deallocate(0x4000, BlockLayout { size: 4096, align: 8 });
    assert_eq!(action, DeallocAction::ReturnToFallback);
}
