use vstd::prelude::*;

verus! {

/// Size in bytes of one DMA page.
pub const PAGE_SIZE: usize = 0x1000;

/// The smallest multiple of the page size that is at least `addr`.
pub open spec fn page_round_up(addr: int) -> int {
    ((addr + 0x1000 - 1) / 0x1000) * 0x1000
}

/// The services the block transport needs from the platform: page-sized
/// DMA memory, given out by bumping a pointer through an arena and never
/// taken back, and an identity mapping between physical and virtual
/// addresses.
pub struct HalImpl {
    next: usize,
}

impl HalImpl {
    /// The address the next allocation will return.
    pub closed spec fn next_spec(&self) -> usize {
        self.next
    }

    /// Every allocation starts on a page boundary.
    pub open spec fn wf(&self) -> bool {
        self.next_spec() % 0x1000 == 0
    }

    /// An arena starting at the first page boundary at or after `base`.
    pub fn new(base: usize) -> (r: HalImpl)
        requires
            base + 0x1000 - 1 <= usize::MAX,
        ensures
            r.wf(),
            r.next_spec() == page_round_up(base as int),
    {
        let next = (base + (PAGE_SIZE - 1)) / PAGE_SIZE * PAGE_SIZE;
        proof {
            let q = (base + 0x1000 - 1) / 0x1000;
            assert(q * 0x1000 <= base + 0x1000 - 1) by (nonlinear_arith)
                requires
                    q == (base + 0x1000 - 1) / 0x1000,
            ;
            assert((q * 0x1000) % 0x1000 == 0) by (nonlinear_arith);
        }
        HalImpl { next }
    }

    /// The address the next allocation will return.
    pub fn next_address(&self) -> (r: usize)
        ensures
            r == self.next_spec(),
    {
        self.next
    }

    /// Hands out `pages` contiguous pages, starting where the previous
    /// allocation ended.
    pub fn dma_alloc(&mut self, pages: usize) -> (r: usize)
        requires
            old(self).wf(),
            old(self).next_spec() + pages * 0x1000 <= usize::MAX,
        ensures
            final(self).wf(),
            r == old(self).next_spec(),
            final(self).next_spec() == old(self).next_spec() + pages * 0x1000,
    {
        let paddr = self.next;
        proof {
            assert((paddr + pages * 0x1000) % 0x1000 == 0) by (nonlinear_arith)
                requires
                    paddr % 0x1000 == 0,
            ;
        }
        self.next = paddr + PAGE_SIZE * pages;
        paddr
    }

    /// Accepts a region back and reports success; the memory is not reused.
    pub fn dma_dealloc(&self, paddr: usize, pages: usize) -> (r: i32)
        ensures
            r == 0,
    {
        0
    }

    /// Physical and virtual addresses coincide.
    pub fn phys_to_virt(paddr: usize) -> (r: usize)
        ensures
            r == paddr,
    {
        paddr
    }

    /// Physical and virtual addresses coincide.
    pub fn virt_to_phys(vaddr: usize) -> (r: usize)
        ensures
            r == vaddr,
    {
        vaddr
    }
}

/// Two allocations in a row, of `first` and then `second` pages, from an
/// arena whose next address is `next`, both start on a page boundary, the
/// second starts at least `first` pages after the first, and the two
/// regions share no byte.
pub proof fn lemma_allocations_disjoint(next: usize, first: usize, second: usize)
    requires
        next % 0x1000 == 0,
        next + first * 0x1000 + second * 0x1000 <= usize::MAX,
    ensures
        ({
            let a = next as int;
            let b = next + first * 0x1000;
            &&& a % 0x1000 == 0
            &&& b % 0x1000 == 0
            &&& b - a >= first * 0x1000
            &&& a + first * 0x1000 <= b
            &&& b + second * 0x1000 <= usize::MAX
        }),
{
    assert((next + first * 0x1000) % 0x1000 == 0) by (nonlinear_arith)
        requires
            next % 0x1000 == 0,
    ;
}

} // verus!
