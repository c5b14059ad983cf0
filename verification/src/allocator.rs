//! Shared pieces of the heap allocators: the heap's place in the address
//! space, allocation layouts as plain values, and address alignment. The
//! allocators here are address-arithmetic models: they decide which addresses
//! an allocation gets, while the surrounding kernel is what turns addresses
//! into memory.

use vstd::prelude::*;

use vstd::arithmetic::div_mod::{lemma_fundamental_div_mod, lemma_fundamental_div_mod_converse};

verus! {

/// Lowest virtual address of the kernel heap. Addresses are 64-bit wide on
/// the processor this kernel targets.
pub const HEAP_START: u64 = 0x4444_4444_0000;

/// Size of the kernel heap in bytes.
pub const HEAP_SIZE: u64 = 100 * 1024;

/// Size of one page of virtual memory.
pub const PAGE_SIZE: u64 = 4096;

/// The numbers of the first and the last page the kernel heap touches: the
/// range the surrounding kernel must map before the heap is usable.
pub fn heap_page_range() -> (r: (u64, u64))
    ensures
        r.0 == HEAP_START as int / PAGE_SIZE as int,
        r.1 == (HEAP_START + HEAP_SIZE - 1) / PAGE_SIZE as int,
        r.0 <= r.1,
{
    (HEAP_START / PAGE_SIZE, (HEAP_START + HEAP_SIZE - 1) / PAGE_SIZE)
}

/// Whether `n` is a power of two (and so usable as an alignment).
pub open spec fn is_power_of_two(n: int) -> bool
    decreases n,
{
    if n <= 0 {
        false
    } else if n == 1 {
        true
    } else {
        n % 2 == 0 && is_power_of_two(n / 2)
    }
}

/// A size-and-alignment allocation request, as plain values.
#[derive(Clone, Copy, Debug, PartialEq, Eq, Structural)]
pub struct BlockLayout {
    pub size: usize,
    pub align: usize,
}

impl BlockLayout {
    /// A usable layout: the alignment is a power of two.
    pub open spec fn wf(self) -> bool {
        is_power_of_two(self.align as int)
    }
}

/// The smallest multiple of `align` that is at least `addr`.
pub open spec fn spec_align_up(addr: int, align: int) -> int {
    ((addr + align - 1) / align) * align
}

/// Rounds `addr` up to the next multiple of `align`.
pub fn align_up(addr: usize, align: usize) -> (r: usize)
    requires
        is_power_of_two(align as int),
        addr + align <= usize::MAX,
    ensures
        r == spec_align_up(addr as int, align as int),
        r % align == 0,
        addr <= r < addr + align,
{
    let remainder = addr % align;
    proof {
        let a = addr as int;
        let g = align as int;
        let q = a / g;
        let rem = a % g;
        lemma_fundamental_div_mod(a, g);
        if rem == 0 {
            assert(a + g - 1 == q * g + (g - 1)) by (nonlinear_arith)
                requires
                    a == g * q + rem,
                    rem == 0,
            ;
            lemma_fundamental_div_mod_converse(a + g - 1, g, q, g - 1);
            assert(q * g == a) by (nonlinear_arith)
                requires
                    a == g * q + rem,
                    rem == 0,
            ;
        } else {
            assert(a + g - 1 == (q + 1) * g + (rem - 1)) by (nonlinear_arith)
                requires
                    a == g * q + rem,
            ;
            lemma_fundamental_div_mod_converse(a + g - 1, g, q + 1, rem - 1);
            assert(a - rem + g == (q + 1) * g + 0) by (nonlinear_arith)
                requires
                    a == g * q + rem,
            ;
            lemma_fundamental_div_mod_converse(a - rem + g, g, q + 1, 0);
        }
    }
    if remainder == 0 {
        addr
    } else {
        addr - remainder + align
    }
}

} // verus!
