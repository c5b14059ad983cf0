//! The free-list allocator: free memory regions are kept as a list (in the
//! kernel, each region holds its own list node in its first bytes), searched
//! first-fit. Regions are split on allocation but never merged, so the heap
//! fragments over time. This model keeps the list of regions as plain
//! start/size pairs in the order the in-memory list links them.

use vstd::prelude::*;

use crate::allocator::{align_up, is_power_of_two, spec_align_up, BlockLayout};

verus! {

/// Bytes an in-memory list node occupies (a size word and a next pointer):
/// the least a free region can hold.
pub const NODE_SIZE: usize = 16;

/// Alignment an in-memory list node needs: every free region starts on such
/// a boundary.
pub const NODE_ALIGN: usize = 8;

/// One free region: its start address and its size in bytes.
#[derive(Clone, Copy, Debug, PartialEq, Eq, Structural)]
pub struct ListNode {
    size: usize,
    start: usize,
}

impl ListNode {
    /// The region's size in bytes.
    pub closed spec fn size(self) -> int {
        self.size as int
    }

    /// The region's first address.
    pub closed spec fn start(self) -> int {
        self.start as int
    }

    /// A region that can really hold a list node and whose end stays in the
    /// address space.
    pub open spec fn wf(self) -> bool {
        &&& self.start() % (NODE_ALIGN as int) == 0
        &&& self.size() >= NODE_SIZE
        &&& self.start() + self.size() <= usize::MAX
    }

    /// A region record for the given span.
    pub fn new(start: usize, size: usize) -> (node: ListNode)
        ensures
            node.start() == start,
            node.size() == size,
    {
        ListNode { size, start }
    }

    /// The region's first address.
    pub fn start_addr(&self) -> (addr: usize)
        ensures
            addr == self.start(),
    {
        self.start
    }

    /// One past the region's last address.
    pub fn end_addr(&self) -> (addr: usize)
        requires
            self.start() + self.size() <= usize::MAX,
        ensures
            addr == self.start() + self.size(),
    {
        self.start + self.size
    }
}

/// Whether an allocation of `size` bytes at alignment `align` fits into the
/// region: the aligned start plus the size stays within the region, and what
/// would remain behind it is either nothing or enough for a list node.
pub open spec fn region_fits(region: ListNode, size: int, align: int) -> bool {
    let alloc_start = spec_align_up(region.start(), align);
    let alloc_end = alloc_start + size;
    let excess = region.start() + region.size() - alloc_end;
    &&& alloc_end <= region.start() + region.size()
    &&& (excess == 0 || excess >= NODE_SIZE)
}

/// The free-list allocator: the free regions, front of the list first.
pub struct LinkedListAllocator {
    regions: Vec<ListNode>,
}

impl LinkedListAllocator {
    /// The free regions, in list order.
    pub closed spec fn regions(self) -> Seq<ListNode> {
        self.regions@
    }

    /// Every listed region is a usable one.
    pub open spec fn wf(self) -> bool {
        forall|i: int| 0 <= i < self.regions().len() ==> (#[trigger] self.regions()[i]).wf()
    }

    /// An allocator with no free memory yet.
    pub fn new() -> (a: LinkedListAllocator)
        ensures
            a.wf(),
            a.regions() == Seq::<ListNode>::empty(),
    {
        LinkedListAllocator { regions: Vec::new() }
    }

    /// Adopts the given heap region as the initial free memory. The caller
    /// vouches that the span is real, unused memory.
    pub fn init(&mut self, heap_start: usize, heap_size: usize)
        requires
            old(self).wf(),
            heap_start % NODE_ALIGN == 0,
            heap_size >= NODE_SIZE,
            heap_start + heap_size <= usize::MAX,
        ensures
            final(self).wf(),
            final(self).regions().len() == old(self).regions().len() + 1,
            final(self).regions()[0].start() == heap_start,
            final(self).regions()[0].size() == heap_size,
            final(self).regions().drop_first() == old(self).regions(),
    {
        self.add_free_region(heap_start, heap_size);
    }

    /// Puts a freed span at the front of the list, where the kernel writes
    /// the span's list node into its first bytes. The span must be able to
    /// hold that node: aligned for it and at least as large.
    pub fn add_free_region(&mut self, addr: usize, size: usize)
        requires
            old(self).wf(),
            addr % NODE_ALIGN == 0,
            size >= NODE_SIZE,
            addr + size <= usize::MAX,
        ensures
            final(self).wf(),
            final(self).regions().len() == old(self).regions().len() + 1,
            final(self).regions()[0].start() == addr,
            final(self).regions()[0].size() == size,
            final(self).regions().drop_first() == old(self).regions(),
    {
        let node = ListNode::new(addr, size);
        self.regions.insert(0, node);
        proof {
            assert(final(self).regions().drop_first() =~= old(self).regions());
        }
    }

    /// Whether the region can serve an allocation of `size` bytes aligned to
    /// `align`, and at which address: the region's start rounded up. The
    /// request is refused when it overruns the region or would strand a
    /// remainder too small to hold a list node.
    pub fn alloc_from_region(region: &ListNode, size: usize, align: usize) -> (r: Result<
        usize,
        (),
    >)
        requires
            region.wf(),
            is_power_of_two(align as int),
            region.start() + align <= usize::MAX,
        ensures
            r is Ok <==> region_fits(*region, size as int, align as int),
            r is Ok ==> r->Ok_0 == spec_align_up(region.start(), align as int),
    {
        let alloc_start = align_up(region.start_addr(), align);
        let alloc_end_opt = alloc_start.checked_add(size);
        match alloc_end_opt {
            None => Err(()),
            Some(alloc_end) => {
                if alloc_end > region.end_addr() {
                    // too small
                    Err(())
                } else {
                    let excess_size = region.end_addr() - alloc_end;
                    if excess_size > 0 && excess_size < NODE_SIZE {
                        // the rest of the region could not hold a list node
                        Err(())
                    } else {
                        Ok(alloc_start)
                    }
                }
            },
        }
    }

    /// First-fit search: walks the list front to back, removes the first
    /// region that can serve the request, and returns it with the
    /// allocation's start address. Returns nothing, leaving the list
    /// unchanged, when no region fits.
    pub fn find_region(&mut self, size: usize, align: usize) -> (r: Option<(ListNode, usize)>)
        requires
            old(self).wf(),
            is_power_of_two(align as int),
            forall|i: int|
                0 <= i < old(self).regions().len() ==> (#[trigger] old(self).regions()[i]).start()
                    + align <= usize::MAX,
        ensures
            final(self).wf(),
            r is None ==> final(self).regions() == old(self).regions() && forall|i: int|
                0 <= i < old(self).regions().len() ==> !region_fits(
                    #[trigger] old(self).regions()[i],
                    size as int,
                    align as int,
                ),
            r matches Some((node, alloc_start)) ==> exists|i: int|
                0 <= i < old(self).regions().len() && #[trigger] region_fits(
                    old(self).regions()[i],
                    size as int,
                    align as int,
                ) && (forall|j: int|
                    0 <= j < i ==> !region_fits(
                        #[trigger] old(self).regions()[j],
                        size as int,
                        align as int,
                    )) && node == old(self).regions()[i] && alloc_start == spec_align_up(
                    node.start(),
                    align as int,
                ) && final(self).regions() == old(self).regions().remove(i),
    {
        let mut index: usize = 0;
        while index < self.regions.len()
            invariant
                self.wf(),
                *self == *old(self),
                is_power_of_two(align as int),
                index <= self.regions().len(),
                forall|i: int|
                    0 <= i < self.regions().len() ==> (#[trigger] self.regions()[i]).start()
                        + align <= usize::MAX,
                forall|j: int|
                    0 <= j < index ==> !region_fits(
                        #[trigger] self.regions()[j],
                        size as int,
                        align as int,
                    ),
            decreases self.regions().len() - index,
        {
            let fits = Self::alloc_from_region(&self.regions[index], size, align);
            match fits {
                Ok(alloc_start) => {
                    let node = self.regions.remove(index);
                    return Some((node, alloc_start));
                },
                Err(()) => {
                    index = index + 1;
                },
            }
        }
        None
    }

    /// The alignment the allocator really uses for a request: at least the
    /// node alignment.
    pub open spec fn adjusted_align(layout: BlockLayout) -> int {
        if layout.align >= NODE_ALIGN {
            layout.align as int
        } else {
            NODE_ALIGN as int
        }
    }

    /// The size the allocator really uses for a request: padded to the
    /// adjusted alignment and to at least one node.
    pub open spec fn adjusted_size(layout: BlockLayout) -> int {
        let padded = spec_align_up(layout.size as int, Self::adjusted_align(layout));
        if padded >= NODE_SIZE {
            padded
        } else {
            NODE_SIZE as int
        }
    }

    /// Adjusts a requested layout so that whatever is allocated could later
    /// hold a list node when freed: the alignment is raised to the node's,
    /// the size is padded to a multiple of that alignment and to at least
    /// one node. Both results are multiples of the node alignment.
    pub fn size_align(layout: BlockLayout) -> (r: (usize, usize))
        requires
            layout.wf(),
            layout.size + layout.align <= usize::MAX - NODE_ALIGN,
        ensures
            r.1 == Self::adjusted_align(layout),
            r.0 == Self::adjusted_size(layout),
            is_power_of_two(r.1 as int),
            r.0 >= NODE_SIZE,
            r.0 as int % NODE_ALIGN as int == 0,
            r.1 as int % NODE_ALIGN as int == 0,
    {
        proof {
            reveal_with_fuel(is_power_of_two, 5);
        }
        let align = if layout.align >= NODE_ALIGN {
            layout.align
        } else {
            NODE_ALIGN
        };
        proof {
            lemma_power_of_two_le_divides(NODE_ALIGN as int, align as int);
        }
        let padded = align_up(layout.size, align);
        let size = if padded >= NODE_SIZE {
            padded
        } else {
            NODE_SIZE
        };
        proof {
            if padded >= NODE_SIZE {
                lemma_divides_transitive(padded as int, align as int, NODE_ALIGN as int);
            }
        }
        (size, align)
    }

    /// The allocation entry: adjusts the layout, takes the first region that
    /// fits off the list, hands the leftover tail behind the allocation back
    /// as a new free region, and returns the allocation's start address. No
    /// region fitting means the heap cannot serve the request and nothing
    /// changes.
    pub fn allocate(&mut self, layout: BlockLayout) -> (r: Option<usize>)
        requires
            old(self).wf(),
            layout.wf(),
            layout.size + layout.align <= usize::MAX - NODE_ALIGN,
            forall|i: int|
                0 <= i < old(self).regions().len() ==> (#[trigger] old(self).regions()[i]).start()
                    + Self::adjusted_align(layout) <= usize::MAX,
        ensures
            final(self).wf(),
            r is None ==> final(self).regions() == old(self).regions() && forall|i: int|
                0 <= i < old(self).regions().len() ==> !region_fits(
                    #[trigger] old(self).regions()[i],
                    Self::adjusted_size(layout),
                    Self::adjusted_align(layout),
                ),
            r matches Some(alloc_start) ==> exists|i: int|
                {
                    let region = #[trigger] old(self).regions()[i];
                    let excess = region.start() + region.size() - (alloc_start
                        + Self::adjusted_size(layout));
                    &&& 0 <= i < old(self).regions().len()
                    &&& region_fits(
                        region,
                        Self::adjusted_size(layout),
                        Self::adjusted_align(layout),
                    )
                    &&& (forall|j: int|
                        0 <= j < i ==> !region_fits(
                            #[trigger] old(self).regions()[j],
                            Self::adjusted_size(layout),
                            Self::adjusted_align(layout),
                        ))
                    &&& alloc_start == spec_align_up(region.start(), Self::adjusted_align(layout))
                    &&& (if excess > 0 {
                        final(self).regions().len() == old(self).regions().len() && final(self).regions()[0].start() == alloc_start + Self::adjusted_size(layout)
                            && final(self).regions()[0].size() == excess && final(self).regions().drop_first() == old(self).regions().remove(i)
                    } else {
                        final(self).regions() == old(self).regions().remove(i)
                    })
                },
    {
        let (size, align) = Self::size_align(layout);
        match self.find_region(size, align) {
            Some((region, alloc_start)) => {
                proof {
                    let i = choose|i: int|
                        0 <= i < old(self).regions().len() && #[trigger] region_fits(
                            old(self).regions()[i],
                            size as int,
                            align as int,
                        ) && (forall|j: int|
                            0 <= j < i ==> !region_fits(
                                #[trigger] old(self).regions()[j],
                                size as int,
                                align as int,
                            )) && region == old(self).regions()[i] && alloc_start
                            == spec_align_up(region.start(), align as int) && self.regions()
                            == old(self).regions().remove(i);
                    lemma_align_up_aligned(region.start(), align as int);
                    lemma_divides_transitive(
                        alloc_start as int,
                        align as int,
                        NODE_ALIGN as int,
                    );
                    vstd::arithmetic::div_mod::lemma_add_mod_noop(
                        alloc_start as int,
                        size as int,
                        NODE_ALIGN as int,
                    );
                }
                let alloc_end = alloc_start + size;
                let excess_size = region.end_addr() - alloc_end;
                if excess_size > 0 {
                    self.add_free_region(alloc_end, excess_size);
                }
                Some(alloc_start)
            },
            None => None,
        }
    }

    /// The deallocation entry: adjusts the layout the same way the
    /// allocation did and puts the freed block at the front of the free
    /// list. The caller vouches that the block came from a matching
    /// allocation.
    pub fn deallocate(&mut self, ptr: usize, layout: BlockLayout)
        requires
            old(self).wf(),
            layout.wf(),
            layout.size + layout.align <= usize::MAX - NODE_ALIGN,
            ptr % NODE_ALIGN == 0,
            ptr + Self::adjusted_size(layout) <= usize::MAX,
        ensures
            final(self).wf(),
            final(self).regions().len() == old(self).regions().len() + 1,
            final(self).regions()[0].start() == ptr,
            final(self).regions()[0].size() == Self::adjusted_size(layout),
            final(self).regions().drop_first() == old(self).regions(),
    {
        let (size, _align) = Self::size_align(layout);
        self.add_free_region(ptr, size);
    }
}

/// Rounding up to a multiple of `g` lands on a multiple of `g`.
proof fn lemma_align_up_aligned(a: int, g: int)
    requires
        g > 0,
    ensures
        spec_align_up(a, g) % g == 0,
{
    vstd::arithmetic::div_mod::lemma_mod_multiples_basic((a + g - 1) / g, g);
}

/// Divisibility is transitive: a multiple of a multiple of `c` is a multiple
/// of `c`.
proof fn lemma_divides_transitive(a: int, b: int, c: int)
    requires
        a % b == 0,
        b % c == 0,
        b > 0,
        c > 0,
    ensures
        a % c == 0,
{
    vstd::arithmetic::div_mod::lemma_fundamental_div_mod(a, b);
    vstd::arithmetic::div_mod::lemma_fundamental_div_mod(b, c);
    let k = a / b;
    let m = b / c;
    assert(a == (m * k) * c) by (nonlinear_arith)
        requires
            a == b * k,
            b == c * m,
    ;
    vstd::arithmetic::div_mod::lemma_mod_multiples_basic(m * k, c);
}

/// A power of two strictly below another power of two is at most half of it.
proof fn lemma_power_of_two_lt_half(a: int, b: int)
    requires
        is_power_of_two(a),
        is_power_of_two(b),
        a < b,
    ensures
        a <= b / 2,
    decreases b,
{
    if a == 1 {
    } else {
        lemma_power_of_two_lt_half(a / 2, b / 2);
    }
}

/// A power of two that is at most a power-of-two bound divides the bound.
proof fn lemma_power_of_two_le_divides(a: int, b: int)
    requires
        is_power_of_two(a),
        is_power_of_two(b),
        a <= b,
    ensures
        b % a == 0,
    decreases b,
{
    if a == b {
        vstd::arithmetic::div_mod::lemma_mod_self_0(a);
    } else {
        lemma_power_of_two_lt_half(a, b);
        lemma_power_of_two_le_divides(a, b / 2);
        let k = (b / 2) / a;
        vstd::arithmetic::div_mod::lemma_fundamental_div_mod(b / 2, a);
        assert(b == (2 * k) * a) by (nonlinear_arith)
            requires
                b == 2 * (b / 2),
                b / 2 == a * k,
        ;
        vstd::arithmetic::div_mod::lemma_mod_multiples_basic(2 * k, a);
    }
}

} // verus!
