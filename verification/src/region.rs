//! Bounds of one contiguous block of JIT-generated code.
//!
//! A region is the unit of fault ownership: a hardware fault is treated as a
//! WebAssembly trap only when its faulting address lies inside a registered
//! region. The membership test is a pure range check so that it can run from
//! inside a fault handler without allocation or locking.

use vstd::prelude::*;

verus! {

/// The bounds (base address, length in bytes) of one contiguous block of
/// executable JIT code. Addresses are plain machine words.
#[derive(Clone, Copy, Debug)]
pub struct ExecutableRegion {
    pub base: usize,
    pub length: usize,
}

impl ExecutableRegion {
    /// A region is well formed when its one-past-the-end address still fits
    /// in the address space.
    pub open spec fn wf(self) -> bool {
        self.base + self.length <= usize::MAX
    }

    /// Membership of an address, as a mathematical range test.
    pub open spec fn spec_contains(self, address: usize) -> bool {
        self.base <= address < self.base + self.length
    }

    /// Two regions are disjoint when no address lies in both.
    pub open spec fn disjoint(self, other: ExecutableRegion) -> bool {
        forall|a: usize| !(self.spec_contains(a) && other.spec_contains(a))
    }

    pub fn new(base: usize, length: usize) -> (r: ExecutableRegion)
        requires
            base + length <= usize::MAX,
        ensures
            r.base == base,
            r.length == length,
            r.wf(),
    {
        ExecutableRegion { base, length }
    }

    /// Decides whether `address` lies inside this region: true exactly when
    /// `base <= address < base + length`. The computation cannot overflow and
    /// performs no allocation, so it is safe to run from fault context.
    pub fn contains(&self, address: usize) -> (r: bool)
        ensures
            r == self.spec_contains(address),
    {
        self.base <= address && address - self.base < self.length
    }

    /// Translates an address inside the region to its in-region byte offset.
    pub fn offset_of(&self, address: usize) -> (off: usize)
        requires
            self.spec_contains(address),
        ensures
            off == address - self.base,
            off < self.length,
    {
        address - self.base
    }
}

/// Both boundary values behave as the range test says: the base address is
/// inside a non-empty region, and the one-past-the-end address is outside
/// every region.
pub proof fn lemma_contains_boundaries(r: ExecutableRegion)
    requires
        r.wf(),
    ensures
        r.length > 0 ==> r.spec_contains(r.base),
        !r.spec_contains((r.base + r.length) as usize),
        forall|a: usize| r.spec_contains(a) <==> r.base <= a < r.base + r.length,
{
}

} // verus!
