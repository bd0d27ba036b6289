//! The protected call: the single synchronous mechanism wrapping every entry
//! from host code into JIT code.
//!
//! The platform half of the mechanism — saving a non-local-exit target
//! before the native call and jumping back to it from the fault handler or
//! from an early-trap trigger — cannot be expressed here; it lives in the
//! unverified platform glue. What is verified is everything that half acts
//! on: the call-scoped pending-early-trap slot, and the settlement that
//! turns the raw outcome of one protected invocation into the typed result
//! the dispatcher reports.
//!
//! Each protected call owns its own slot, so nested protected calls (JIT
//! code calling back into the host, which enters JIT code again) and
//! concurrent calls on other threads cannot disturb one another's state.

use vstd::prelude::*;
use crate::handler::HandlerData;
use crate::trap::TrapReason;

verus! {

/// An arbitrary host-supplied error payload carried by an early trap.
#[derive(Clone, Debug)]
pub struct HostError {
    pub message: String,
}

/// Every way one call across the boundary can fail.
#[derive(Clone, Debug)]
pub enum CallError {
    /// A recognized fault originating in managed code at a known offset.
    Trap { reason: TrapReason, source_location: u32 },
    /// A fault inside a managed region with no matching trap record;
    /// surfaced, never silently ignored.
    UnknownFault,
    /// An explicitly triggered abort before any hardware fault, carrying the
    /// exact payload the host supplied.
    EarlyTrap(HostError),
}

/// The raw outcome of one protected invocation, as the platform glue saw it:
/// either the call body returned normally, or control came back to the saved
/// exit target by a non-local transfer.
#[derive(Clone, Copy, Debug)]
pub enum CallOutcome {
    /// The call body completed and the return buffer is filled.
    Returned,
    /// The fault handler claimed a hardware fault at this instruction
    /// address and transferred control back.
    FaultTransfer { address: usize },
    /// An early-trap trigger transferred control back; the payload sits in
    /// the call's slot.
    EarlyTransfer,
}

/// The typed error owed for a claimed hardware fault: consult the claiming
/// region's trap index at the in-region offset; a hit is a recognized trap,
/// a miss an unknown hardware fault.
pub open spec fn fault_error(handler: HandlerData, address: usize) -> CallError
    recommends
        handler.claims(address),
{
    if handler.index().has_offset(handler.offset_of(address)) {
        let rec = handler.index().record_at(handler.offset_of(address));
        CallError::Trap { reason: rec.reason, source_location: rec.source_location }
    } else {
        CallError::UnknownFault
    }
}

/// The settlement function: what one protected call reports for a given
/// pending-slot state and raw outcome. The result depends on nothing but
/// these two values and the claiming region's trap index — in particular,
/// never on the state of any other call.
pub open spec fn settle_spec(
    pending: Option<HostError>,
    outcome: CallOutcome,
    handler: HandlerData,
) -> Result<(), CallError> {
    match outcome {
        CallOutcome::Returned => Ok(()),
        CallOutcome::FaultTransfer { address } => match pending {
            Some(e) => Err(CallError::EarlyTrap(e)),
            None => Err(fault_error(handler, address)),
        },
        CallOutcome::EarlyTransfer => match pending {
            Some(e) => Err(CallError::EarlyTrap(e)),
            None => Err(CallError::UnknownFault),
        },
    }
}

/// One protected call's scoped state: the single-slot pending-early-trap
/// cell, owned by this call and by nobody else.
pub struct ProtectedCall {
    pending: Option<HostError>,
}

impl ProtectedCall {
    /// The error deposited by an early-trap trigger during this call, if any.
    pub closed spec fn pending(self) -> Option<HostError> {
        self.pending
    }

    /// Establishes a fresh protected call. The slot starts empty: whatever a
    /// previous call on this thread left behind can never leak into this one.
    pub fn begin() -> (p: ProtectedCall)
        ensures
            p.pending() is None,
    {
        ProtectedCall { pending: None }
    }

    /// Deposits the error an early-trap request carries. The platform glue
    /// performs the same non-local transfer afterwards that the fault
    /// handler performs, so the enclosing protected call has exactly one
    /// unwind path to reason about.
    pub fn trigger_early_trap(&mut self, error: HostError)
        ensures
            final(self).pending() == Some(error),
    {
        self.pending = Some(error);
    }

    /// Settles the protected call once control is back on the host side:
    /// a normal return succeeds; on a non-local transfer a deposited early
    /// trap wins (its exact payload surfaces and no fault decoding runs),
    /// and otherwise the claimed faulting address is translated through the
    /// trap index into a typed trap or an unknown-fault error.
    pub fn settle(self, outcome: CallOutcome, handler: &HandlerData) -> (r: Result<
        (),
        CallError,
    >)
        requires
            handler.wf(),
            outcome matches CallOutcome::FaultTransfer { address } ==> handler.claims(address),
            outcome is EarlyTransfer ==> self.pending() is Some,
        ensures
            r == settle_spec(self.pending(), outcome, *handler),
    {
        match outcome {
            CallOutcome::Returned => Ok(()),
            CallOutcome::FaultTransfer { address } => match self.pending {
                Some(e) => Err(CallError::EarlyTrap(e)),
                None => match handler.lookup(address) {
                    Some(rec) => Err(
                        CallError::Trap {
                            reason: rec.reason,
                            source_location: rec.source_location,
                        },
                    ),
                    None => Err(CallError::UnknownFault),
                },
            },
            CallOutcome::EarlyTransfer => match self.pending {
                Some(e) => Err(CallError::EarlyTrap(e)),
                None => Err(CallError::UnknownFault),
            },
        }
    }
}

/// Early-trap exactness law: when an early trap was triggered during a
/// protected call, settling that call surfaces exactly the deposited
/// payload, whatever raw outcome the transfer produced, and the hardware
/// fault decoding contributes nothing to the result.
pub proof fn lemma_early_trap_payload_exact(
    e: HostError,
    outcome: CallOutcome,
    handler: HandlerData,
)
    requires
        !(outcome is Returned),
    ensures
        settle_spec(Some(e), outcome, handler) == Err::<(), CallError>(CallError::EarlyTrap(e)),
{
}

/// Call-isolation law: each protected call observes the trap recorded at
/// its own faulting offset and nothing of any other call. Two calls against
/// the same module that fault at offsets carrying distinct trap reasons
/// settle to distinct trap errors, each carrying its own record's reason
/// and source location.
pub proof fn lemma_own_trap_observed(handler: HandlerData, a1: usize, a2: usize)
    requires
        handler.wf(),
        handler.claims(a1),
        handler.claims(a2),
        handler.index().has_offset(handler.offset_of(a1)),
        handler.index().has_offset(handler.offset_of(a2)),
    ensures
        settle_spec(None, CallOutcome::FaultTransfer { address: a1 }, handler) == Err::<
            (),
            CallError,
        >(
            CallError::Trap {
                reason: handler.index().record_at(handler.offset_of(a1)).reason,
                source_location: handler.index().record_at(handler.offset_of(a1)).source_location,
            },
        ),
        settle_spec(None, CallOutcome::FaultTransfer { address: a2 }, handler) == Err::<
            (),
            CallError,
        >(
            CallError::Trap {
                reason: handler.index().record_at(handler.offset_of(a2)).reason,
                source_location: handler.index().record_at(handler.offset_of(a2)).source_location,
            },
        ),
        handler.index().record_at(handler.offset_of(a1)).reason != handler.index().record_at(
            handler.offset_of(a2),
        ).reason ==> settle_spec(None, CallOutcome::FaultTransfer { address: a1 }, handler)
            != settle_spec(None, CallOutcome::FaultTransfer { address: a2 }, handler),
{
}

} // verus!
