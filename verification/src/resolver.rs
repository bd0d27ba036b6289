//! The function resolver: the mapping from a module-local function index to
//! the native entry address of the compiled function body, handed over by
//! the linking layer when the module's code is installed.

use vstd::prelude::*;

verus! {

/// Local function index to native entry address, dense by index.
pub struct FuncResolver {
    entries: Vec<usize>,
}

impl FuncResolver {
    pub closed spec fn entries(self) -> Seq<usize> {
        self.entries@
    }

    pub fn build(entries: Vec<usize>) -> (r: FuncResolver)
        ensures
            r.entries() == entries@,
    {
        FuncResolver { entries }
    }

    /// Resolves a local function index to its native entry address; nothing
    /// is returned exactly when the index is out of range for this module.
    pub fn lookup(&self, func_index: usize) -> (r: Option<usize>)
        ensures
            (r is Some) <==> func_index < self.entries().len(),
            r matches Some(addr) ==> addr == self.entries()[func_index as int],
    {
        if func_index < self.entries.len() {
            Some(self.entries[func_index])
        } else {
            None
        }
    }
}

} // verus!
