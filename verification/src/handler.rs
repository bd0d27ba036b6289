//! Per-module fault-handler context: one executable region together with a
//! shared handle to that region's trap index.
//!
//! A `HandlerData` is registered with the fault handler when a module is
//! published and stays valid for as long as the region's code may execute.
//! Its lookup is the address-first decision the handler makes: translate a
//! faulting instruction pointer to an in-region offset, then consult the
//! trap index.

use std::sync::Arc;
use vstd::prelude::*;
use crate::region::ExecutableRegion;
use crate::trap::{TrapIndex, TrapRecord};

verus! {

/// The fault-handler context of one loaded code artifact: the bounds of its
/// executable buffer and a shared, read-only handle to its trap index.
#[derive(Clone)]
pub struct HandlerData {
    pub trap_data: Arc<TrapIndex>,
    region: ExecutableRegion,
}

impl HandlerData {
    /// The region this context claims faults for.
    pub closed spec fn spec_region(self) -> ExecutableRegion {
        self.region
    }

    /// The trap index consulted for claimed faults.
    pub closed spec fn index(self) -> TrapIndex {
        *self.trap_data
    }

    pub open spec fn wf(self) -> bool {
        self.spec_region().wf() && self.index().wf()
    }

    /// Whether this context claims the given instruction address.
    pub open spec fn claims(self, ip: usize) -> bool {
        self.spec_region().spec_contains(ip)
    }

    pub fn new(trap_data: Arc<TrapIndex>, exec_buffer_ptr: usize, exec_buffer_size: usize) -> (h:
        HandlerData)
        requires
            trap_data.wf(),
            exec_buffer_ptr + exec_buffer_size <= usize::MAX,
        ensures
            h.wf(),
            h.index() == *trap_data,
            h.spec_region().base == exec_buffer_ptr,
            h.spec_region().length == exec_buffer_size,
    {
        HandlerData {
            trap_data,
            region: ExecutableRegion::new(exec_buffer_ptr, exec_buffer_size),
        }
    }

    pub fn region(&self) -> (r: ExecutableRegion)
        ensures
            r == self.spec_region(),
    {
        self.region
    }

    /// Whether the faulting address belongs to this context's code buffer.
    pub fn contains(&self, ip: usize) -> (r: bool)
        ensures
            r == self.claims(ip),
    {
        self.region.contains(ip)
    }

    /// The in-region offset of a claimed instruction address.
    pub open spec fn offset_of(self, ip: usize) -> usize
        recommends
            self.claims(ip),
    {
        (ip - self.spec_region().base) as usize
    }

    /// Address-first trap lookup: translate `ip` to an in-region offset and
    /// consult the trap index. Returns nothing when the address lies outside
    /// the region or carries no trap metadata.
    pub fn lookup(&self, ip: usize) -> (r: Option<TrapRecord>)
        requires
            self.wf(),
        ensures
            (r is Some) <==> self.claims(ip) && self.index().has_offset(self.offset_of(ip)),
            r matches Some(rec) ==> rec == self.index().record_at(self.offset_of(ip))
                && rec.code_offset == ip - self.spec_region().base,
    {
        if self.region.contains(ip) {
            let offset = self.region.offset_of(ip);
            self.trap_data.lookup(offset)
        } else {
            None
        }
    }
}

} // verus!
