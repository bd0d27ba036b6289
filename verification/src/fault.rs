//! Address-first fault triage: deciding whether a hardware fault belongs to
//! managed JIT code, and what to make of it when it does.
//!
//! The platform glue that actually intercepts the signal owns one
//! `FaultHandler` value, registers a `HandlerData` per published module, and
//! on every monitored fault calls [`FaultHandler::decide`] with the faulting
//! instruction address. A [`FaultDecision::Forward`] answer means the fault
//! did not originate in managed code and must be re-raised to the previously
//! installed handler, never converted into a trap result. The other two
//! answers are deposited for the enclosing protected call before the
//! non-local transfer back to its saved execution point.

use vstd::prelude::*;
use crate::handler::HandlerData;
use crate::trap::TrapReason;

verus! {

/// What the fault handler does with one faulting address.
#[derive(Clone, Copy, Debug, PartialEq, Eq, Structural)]
pub enum FaultDecision {
    /// No registered region claims the address: re-raise to the prior
    /// handler or the platform default.
    Forward,
    /// The address lies in a managed region and its offset carries trap
    /// metadata: a recognized WebAssembly trap.
    Trap { reason: TrapReason, source_location: u32 },
    /// The address lies in a managed region but no trap record matches: an
    /// unknown hardware trap, surfaced rather than swallowed.
    Unknown,
}

/// The set of live fault-handler contexts, one per published module.
/// Mutated only at module publish and teardown time, never during a call.
pub struct FaultHandler {
    contexts: Vec<HandlerData>,
}

impl FaultHandler {
    pub closed spec fn contexts(self) -> Seq<HandlerData> {
        self.contexts@
    }

    /// Every context is well formed and the regions are pairwise disjoint:
    /// code artifacts are installed into disjoint memory.
    pub open spec fn wf(self) -> bool {
        &&& forall|i: int| 0 <= i < self.contexts().len() ==> (#[trigger] self.contexts()[i]).wf()
        &&& forall|i: int, j: int|
            0 <= i < j < self.contexts().len() ==> self.contexts()[i].spec_region().disjoint(
                self.contexts()[j].spec_region(),
            )
    }

    /// Whether some registered region claims the address.
    pub open spec fn claimed(self, address: usize) -> bool {
        exists|i: int| 0 <= i < self.contexts().len() && (#[trigger] self.contexts()[i]).claims(
            address,
        )
    }

    /// The decision owed for one claiming context: consult its trap index at
    /// the in-region offset.
    pub open spec fn decision_for(ctx: HandlerData, address: usize) -> FaultDecision
        recommends
            ctx.claims(address),
    {
        if ctx.index().has_offset(ctx.offset_of(address)) {
            let rec = ctx.index().record_at(ctx.offset_of(address));
            FaultDecision::Trap { reason: rec.reason, source_location: rec.source_location }
        } else {
            FaultDecision::Unknown
        }
    }

    pub fn new() -> (h: FaultHandler)
        ensures
            h.wf(),
            h.contexts().len() == 0,
    {
        FaultHandler { contexts: Vec::new() }
    }

    /// Registers one module's context at publish time. The caller guarantees
    /// the new region is disjoint from every live region.
    pub fn register(&mut self, ctx: HandlerData)
        requires
            old(self).wf(),
            ctx.wf(),
            forall|i: int|
                0 <= i < old(self).contexts().len() ==> (#[trigger] old(self).contexts()[
                    i
                ]).spec_region().disjoint(ctx.spec_region()),
        ensures
            final(self).wf(),
            final(self).contexts() == old(self).contexts().push(ctx),
    {
        self.contexts.push(ctx);
        proof {
            assert forall|i: int, j: int| 0 <= i < j < self.contexts().len() implies self.contexts()[
                i
            ].spec_region().disjoint(self.contexts()[j].spec_region()) by {
                if j == self.contexts().len() - 1 {
                    assert(self.contexts()[i] == old(self).contexts()[i]);
                    assert forall|a: usize|
                        !(self.contexts()[i].spec_region().spec_contains(a) && self.contexts()[
                            j
                        ].spec_region().spec_contains(a)) by {
                        assert(old(self).contexts()[i].spec_region().disjoint(ctx.spec_region()));
                    }
                }
            }
        }
    }

    /// Removes the context registered for the region based at `base` at
    /// module teardown time; reports whether one was found.
    pub fn unregister(&mut self, base: usize) -> (found: bool)
        requires
            old(self).wf(),
        ensures
            final(self).wf(),
            !found ==> {
                &&& final(self).contexts() == old(self).contexts()
                &&& forall|i: int|
                    0 <= i < old(self).contexts().len() ==> (#[trigger] old(self).contexts()[
                        i
                    ]).spec_region().base != base
            },
            found ==> exists|i: int|
                {
                    &&& 0 <= i < old(self).contexts().len()
                    &&& (#[trigger] old(self).contexts()[i]).spec_region().base == base
                    &&& forall|j: int|
                        0 <= j < i ==> (#[trigger] old(self).contexts()[j]).spec_region().base
                            != base
                    &&& final(self).contexts() == old(self).contexts().remove(i)
                },
    {
        let mut i: usize = 0;
        while i < self.contexts.len()
            invariant
                *self == *old(self),
                old(self).wf(),
                i <= self.contexts().len(),
                forall|j: int|
                    0 <= j < i ==> (#[trigger] self.contexts()[j]).spec_region().base != base,
            decreases self.contexts.len() - i,
        {
            if self.contexts[i].region().base == base {
                let ghost removed_at: int = i as int;
                self.contexts.remove(i);
                proof {
                    old(self).contexts().remove_ensures(removed_at);
                    assert forall|k: int|
                        0 <= k < self.contexts().len() implies (#[trigger] self.contexts()[
                        k
                    ]).wf() by {
                        let k0: int = if k < removed_at { k } else { k + 1 };
                        assert(self.contexts()[k] == old(self).contexts()[k0]);
                        assert(old(self).contexts()[k0].wf());
                    }
                    assert forall|p: int, q: int|
                        0 <= p < q < self.contexts().len() implies self.contexts()[
                        p
                    ].spec_region().disjoint(self.contexts()[q].spec_region()) by {
                        let p0: int = if p < removed_at { p } else { p + 1 };
                        let q0: int = if q < removed_at { q } else { q + 1 };
                        assert(self.contexts()[p] == old(self).contexts()[p0]);
                        assert(self.contexts()[q] == old(self).contexts()[q0]);
                        assert(old(self).contexts()[p0].spec_region().disjoint(
                            old(self).contexts()[q0].spec_region(),
                        ));
                    }
                }
                return true;
            }
            i = i + 1;
        }
        false
    }

    /// The fault handler's whole decision, address-first: if no registered
    /// region claims the faulting address the fault is forwarded; otherwise
    /// the claiming region's trap index is consulted at the in-region offset
    /// and the fault becomes a typed trap or an unknown hardware trap.
    pub fn decide(&self, address: usize) -> (r: FaultDecision)
        requires
            self.wf(),
        ensures
            (r is Forward) <==> !self.claimed(address),
            forall|i: int|
                0 <= i < self.contexts().len() && (#[trigger] self.contexts()[i]).claims(address)
                    ==> r == Self::decision_for(self.contexts()[i], address),
    {
        let n = self.contexts.len();
        let mut i: usize = 0;
        while i < n
            invariant
                n == self.contexts().len(),
                i <= n,
                self.wf(),
                forall|j: int|
                    0 <= j < i ==> !(#[trigger] self.contexts()[j]).claims(address),
            decreases n - i,
        {
            let ctx = &self.contexts[i];
            if ctx.contains(address) {
                let decision = match ctx.lookup(address) {
                    Some(rec) => FaultDecision::Trap {
                        reason: rec.reason,
                        source_location: rec.source_location,
                    },
                    None => FaultDecision::Unknown,
                };
                proof {
                    let c = self.contexts()[i as int];
                    assert(decision == Self::decision_for(c, address));
                    assert forall|j: int|
                        0 <= j < self.contexts().len() && (#[trigger] self.contexts()[j]).claims(
                            address,
                        ) implies self.contexts()[j] == c by {
                        if j != i {
                            let lo = if j < i { j } else { i as int };
                            let hi = if j < i { i as int } else { j };
                            assert(self.contexts()[lo].spec_region().disjoint(
                                self.contexts()[hi].spec_region(),
                            ));
                        }
                    }
                }
                return decision;
            }
            i = i + 1;
        }
        FaultDecision::Forward
    }
}

} // verus!
