//! The per-module trampoline table: one calling-convention adapter per
//! distinct function-signature shape appearing in a module.
//!
//! The table is built once at compile time from the finite set of signatures
//! the compiler emitted adapters for, and looked up by signature id. A
//! missing entry for a signature the module references is a broken compiler
//! contract, never a runtime or user error.

use vstd::prelude::*;

verus! {

/// One trampoline: the native entry address of the adapter compiled for one
/// signature shape.
#[derive(Clone, Copy, Debug, PartialEq, Eq, Structural)]
pub struct TrampolineEntry {
    pub signature_id: u32,
    pub native_entry_address: usize,
}

/// Unique signature ids: each signature shape has exactly one adapter.
pub open spec fn unique_signatures(s: Seq<TrampolineEntry>) -> bool {
    forall|i: int, j: int| 0 <= i < j < s.len() ==> s[i].signature_id != s[j].signature_id
}

/// The table of all trampolines compiled for one module; stable for the
/// module's lifetime.
pub struct Trampolines {
    entries: Vec<TrampolineEntry>,
}

impl Trampolines {
    pub closed spec fn entries(self) -> Seq<TrampolineEntry> {
        self.entries@
    }

    pub open spec fn wf(self) -> bool {
        unique_signatures(self.entries())
    }

    /// Whether an adapter was compiled for this signature id.
    pub open spec fn has_sig(self, sig_index: u32) -> bool {
        exists|i: int|
            0 <= i < self.entries().len() && self.entries()[i].signature_id == sig_index
    }

    /// The native entry address of the unique adapter for this signature id.
    pub open spec fn entry_for(self, sig_index: u32) -> usize
        recommends
            self.has_sig(sig_index),
    {
        self.entries()[choose|i: int|
            0 <= i < self.entries().len() && self.entries()[i].signature_id
                == sig_index].native_entry_address
    }

    /// Builds the table from the adapters the compiler emitted, one per
    /// signature shape.
    pub fn build(entries: Vec<TrampolineEntry>) -> (t: Trampolines)
        requires
            unique_signatures(entries@),
        ensures
            t.wf(),
            t.entries() == entries@,
    {
        Trampolines { entries }
    }

    /// Looks the adapter for a signature id up; nothing is returned exactly
    /// when no adapter was compiled for that signature.
    pub fn lookup(&self, sig_index: u32) -> (r: Option<usize>)
        requires
            self.wf(),
        ensures
            (r is Some) <==> self.has_sig(sig_index),
            r matches Some(addr) ==> addr == self.entry_for(sig_index),
    {
        let n = self.entries.len();
        let mut i: usize = 0;
        while i < n
            invariant
                n == self.entries().len(),
                i <= n,
                self.wf(),
                forall|j: int|
                    0 <= j < i ==> (#[trigger] self.entries()[j]).signature_id != sig_index,
            decreases n - i,
        {
            let e = self.entries[i];
            if e.signature_id == sig_index {
                proof {
                    assert(self.entries()[i as int].signature_id == sig_index);
                    let k = choose|k: int|
                        0 <= k < self.entries().len() && self.entries()[k].signature_id
                            == sig_index;
                    if k < i {
                        assert(self.entries()[k].signature_id != self.entries()[i as int].signature_id);
                    } else if i < k {
                        assert(self.entries()[i as int].signature_id != self.entries()[k].signature_id);
                    }
                }
                return Some(e.native_entry_address);
            }
            i = i + 1;
        }
        None
    }
}

} // verus!
