//! Trap metadata: the per-function record of which code offsets may fault,
//! why, and where in the source the faulting construct came from.
//!
//! The index is built once when a function is compiled and never mutated
//! afterwards, so any number of faulting threads may consult it concurrently
//! without locking. Lookup is an exact-offset binary search.

use vstd::prelude::*;

verus! {

/// The source-level cause attached to a trapping instruction.
#[derive(Clone, Copy, Debug, PartialEq, Eq, Structural)]
pub enum TrapReason {
    OutOfBoundsMemory,
    IntegerOverflow,
    IntegerDivisionByZero,
    IndirectCallTypeMismatch,
    IndirectCallNullTarget,
    Unreachable,
    StackOverflow,
    Uninitialized,
}

/// Trap metadata for one instruction: the offset of the instruction in the
/// code buffer, an opaque source-position token, and the trap cause.
#[derive(Clone, Copy, Debug, PartialEq, Eq, Structural)]
pub struct TrapRecord {
    pub code_offset: usize,
    pub source_location: u32,
    pub reason: TrapReason,
}

/// Strictly increasing offsets: sortedness and uniqueness in one statement.
pub open spec fn sorted_by_offset(s: Seq<TrapRecord>) -> bool {
    forall|i: int, j: int| 0 <= i < j < s.len() ==> s[i].code_offset < s[j].code_offset
}

/// An immutable mapping from code-buffer offset to trap metadata, with at
/// most one record per offset, kept sorted by offset for logarithmic lookup.
pub struct TrapIndex {
    records: Vec<TrapRecord>,
}

impl TrapIndex {
    /// The records the index was built from, in offset order.
    pub closed spec fn records(self) -> Seq<TrapRecord> {
        self.records@
    }

    pub open spec fn wf(self) -> bool {
        sorted_by_offset(self.records())
    }

    /// Whether some record carries exactly this offset.
    pub open spec fn has_offset(self, offset: usize) -> bool {
        exists|i: int| 0 <= i < self.records().len() && self.records()[i].code_offset == offset
    }

    /// The unique record carrying `offset`, in a well-formed index.
    pub open spec fn record_at(self, offset: usize) -> TrapRecord
        recommends
            self.has_offset(offset),
    {
        self.records()[choose|i: int|
            0 <= i < self.records().len() && self.records()[i].code_offset == offset]
    }

    /// Builds an immutable index from an ordered record set. The caller (the
    /// compiler backend's trap sink) guarantees one record per trapping
    /// instruction offset, already in increasing offset order.
    pub fn build(records: Vec<TrapRecord>) -> (idx: TrapIndex)
        requires
            sorted_by_offset(records@),
        ensures
            idx.wf(),
            idx.records() == records@,
    {
        TrapIndex { records }
    }

    pub fn len(&self) -> (n: usize)
        ensures
            n == self.records().len(),
    {
        self.records.len()
    }

    /// Exact-offset lookup by binary search: returns the unique record at
    /// `offset`, or nothing when the offset carries no trap metadata (a fault
    /// there is not one this subsystem understands and must not be swallowed).
    pub fn lookup(&self, offset: usize) -> (r: Option<TrapRecord>)
        requires
            self.wf(),
        ensures
            (r is Some) <==> self.has_offset(offset),
            r matches Some(rec) ==> rec == self.record_at(offset) && rec.code_offset == offset
                && self.records().contains(rec),
    {
        let mut lo: usize = 0;
        let mut hi: usize = self.records.len();
        while lo < hi
            invariant
                lo <= hi <= self.records().len(),
                self.wf(),
                forall|i: int|
                    0 <= i < self.records().len() && self.records()[i].code_offset == offset
                        ==> lo <= i < hi,
            decreases hi - lo,
        {
            let mid = lo + (hi - lo) / 2;
            let rec = self.records[mid];
            if rec.code_offset == offset {
                proof {
                    assert(self.records()[mid as int].code_offset == offset);
                    let i = choose|i: int|
                        0 <= i < self.records().len() && self.records()[i].code_offset == offset;
                    if i < mid {
                        assert(self.records()[i].code_offset < self.records()[mid as int].code_offset);
                    } else if i > mid {
                        assert(self.records()[mid as int].code_offset < self.records()[i].code_offset);
                    }
                    assert(self.records().contains(rec)) by {
                        assert(self.records()[mid as int] == rec);
                    }
                }
                return Some(rec);
            } else if rec.code_offset < offset {
                lo = mid + 1;
            } else {
                hi = mid;
            }
        }
        None
    }
}

/// Exact-lookup law: in a well-formed index, every inserted offset is an
/// offset the index knows, and the record it knows there is precisely the
/// record that was inserted; `lookup`'s contract then says that exactly that
/// record is returned for inserted offsets and nothing for all others.
pub proof fn lemma_lookup_exact(idx: TrapIndex, i: int)
    requires
        idx.wf(),
        0 <= i < idx.records().len(),
    ensures
        idx.has_offset(idx.records()[i].code_offset),
        idx.record_at(idx.records()[i].code_offset) == idx.records()[i],
{
    let off = idx.records()[i].code_offset;
    assert(idx.has_offset(off)) by {
        assert(idx.records()[i].code_offset == off);
    }
    let j = choose|j: int| 0 <= j < idx.records().len() && idx.records()[j].code_offset == off;
    if j < i {
        assert(idx.records()[j].code_offset < idx.records()[i].code_offset);
    } else if i < j {
        assert(idx.records()[i].code_offset < idx.records()[j].code_offset);
    }
}

} // verus!
