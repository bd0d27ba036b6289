//! The call dispatcher: composes resolver, trampoline table, protected call
//! and fault triage into the one call-boundary entry point.
//!
//! A call proceeds in two verified halves around one unverifiable step. The
//! dispatcher first prepares the call: it resolves the function index to a
//! native entry address, resolves the trampoline for the signature, and
//! marshals the typed arguments into the generic buffer. The platform glue
//! then performs the native invocation under a saved non-local-exit target
//! and reports the raw outcome. The dispatcher finally completes the call:
//! it settles the protected call into a typed result and reads the filled
//! return buffer back as typed values.

use std::sync::Arc;
use vstd::prelude::*;
use crate::handler::HandlerData;
use crate::protect::{CallError, CallOutcome, HostError, ProtectedCall, settle_spec};
use crate::resolver::FuncResolver;
use crate::trampoline::Trampolines;
use crate::values::{FuncSig, Value, decode_slot, encode_value, has_kinds, marshal_args,
    unmarshal_rets};

verus! {

/// Everything the platform glue needs for one native invocation: the
/// function's entry address, the trampoline adapting its calling
/// convention, and the marshalled argument buffer.
pub struct CallPlan {
    pub func: usize,
    pub trampoline: usize,
    pub args: Vec<u64>,
}

/// The per-module call dispatcher.
pub struct Caller {
    handler_data: HandlerData,
    trampolines: Arc<Trampolines>,
    resolver: FuncResolver,
}

impl Caller {
    pub closed spec fn handler_data(self) -> HandlerData {
        self.handler_data
    }

    pub closed spec fn trampolines(self) -> Trampolines {
        *self.trampolines
    }

    pub closed spec fn resolver(self) -> FuncResolver {
        self.resolver
    }

    pub open spec fn wf(self) -> bool {
        self.handler_data().wf() && self.trampolines().wf()
    }

    pub fn new(handler_data: HandlerData, trampolines: Arc<Trampolines>, resolver: FuncResolver)
        -> (c: Caller)
        requires
            handler_data.wf(),
            trampolines.wf(),
        ensures
            c.wf(),
            c.handler_data() == handler_data,
            c.trampolines() == *trampolines,
            c.resolver() == resolver,
    {
        Caller { handler_data, trampolines, resolver }
    }

    /// The fault-handler context of this module, registered with the fault
    /// handler while the module is published.
    pub fn handler(&self) -> (h: &HandlerData)
        ensures
            *h == self.handler_data(),
    {
        &self.handler_data
    }

    /// Resolves a local function index to the compiled body's native entry
    /// address; nothing exactly when the index is out of range.
    pub fn get_func(&self, func_index: usize) -> (r: Option<usize>)
        ensures
            (r is Some) <==> func_index < self.resolver().entries().len(),
            r matches Some(addr) ==> addr == self.resolver().entries()[func_index as int],
    {
        self.resolver.lookup(func_index)
    }

    /// Whether an adapter was compiled for this signature id. Presence is
    /// owed by the compiler for every signature the module references; this
    /// test lets an embedder fail loudly instead of proceeding on a broken
    /// compiler contract.
    pub fn has_trampoline(&self, sig_index: u32) -> (r: bool)
        requires
            self.wf(),
        ensures
            r == self.trampolines().has_sig(sig_index),
    {
        self.trampolines.lookup(sig_index).is_some()
    }

    /// The trampoline for a signature. A signature the module references but
    /// no adapter was compiled for is a broken compiler contract — grounds
    /// to abort the process, never a runtime or user error — so presence is
    /// owed by the caller here.
    pub fn get_trampoline(&self, sig_index: u32) -> (t: usize)
        requires
            self.wf(),
            self.trampolines().has_sig(sig_index),
        ensures
            t == self.trampolines().entry_for(sig_index),
    {
        let r = self.trampolines.lookup(sig_index);
        match r {
            Some(t) => t,
            None => vstd::pervasive::unreached(),
        }
    }

    /// Prepares one call: resolves the function, resolves the trampoline and
    /// marshals the arguments. Nothing is returned exactly when the function
    /// index is out of range or the arguments do not match the declared
    /// parameter kinds.
    pub fn prepare_call(&self, func_index: usize, sig: &FuncSig, args: &Vec<Value>) -> (r:
        Option<CallPlan>)
        requires
            self.wf(),
            self.trampolines().has_sig(sig.id),
        ensures
            (r is Some) <==> func_index < self.resolver().entries().len() && has_kinds(
                args@,
                sig.params@,
            ),
            r matches Some(plan) ==> {
                &&& plan.func == self.resolver().entries()[func_index as int]
                &&& plan.trampoline == self.trampolines().entry_for(sig.id)
                &&& plan.args@.len() == args@.len()
                &&& forall|i: int|
                    0 <= i < args@.len() ==> plan.args@[i] == encode_value(#[trigger] args@[i])
            },
    {
        let func = match self.resolver.lookup(func_index) {
            Some(f) => f,
            None => {
                return None;
            },
        };
        let trampoline = self.get_trampoline(sig.id);
        match marshal_args(&sig.params, args) {
            Some(buf) => Some(CallPlan { func, trampoline, args: buf }),
            None => None,
        }
    }

    /// Completes one call from the raw outcome the platform glue reports:
    /// a normal return yields the typed values read back from the filled
    /// return buffer, matching the signature's declared result arity and
    /// kinds; a non-local transfer yields exactly the settlement of this
    /// call's own pending slot and outcome.
    pub fn complete_call(
        &self,
        sig: &FuncSig,
        call: ProtectedCall,
        outcome: CallOutcome,
        raw_rets: &Vec<u64>,
    ) -> (r: Result<Vec<Value>, CallError>)
        requires
            self.wf(),
            outcome matches CallOutcome::FaultTransfer { address } ==> self.handler_data().claims(
                address,
            ),
            outcome is EarlyTransfer ==> call.pending() is Some,
            outcome is Returned ==> raw_rets@.len() == sig.rets@.len(),
        ensures
            (r is Ok) <==> (outcome is Returned),
            r matches Ok(vals) ==> {
                &&& has_kinds(vals@, sig.rets@)
                &&& forall|i: int|
                    0 <= i < sig.rets@.len() ==> vals@[i] == decode_slot(
                        sig.rets@[i],
                        #[trigger] raw_rets@[i],
                    )
            },
            r matches Err(e) ==> settle_spec(call.pending(), outcome, self.handler_data())
                == Err::<(), CallError>(e),
    {
        match call.settle(outcome, &self.handler_data) {
            Ok(()) => Ok(unmarshal_rets(&sig.rets, raw_rets)),
            Err(e) => Err(e),
        }
    }

    /// Requests an abort of the current call before any hardware fault
    /// occurs: deposits the host-supplied error into the call's own slot.
    /// The platform glue then performs the same non-local transfer the
    /// fault handler uses.
    pub fn do_early_trap(&self, call: &mut ProtectedCall, data: HostError)
        ensures
            final(call).pending() == Some(data),
    {
        call.trigger_early_trap(data);
    }
}

} // verus!
