//! Fault-isolation and call-boundary runtime for JIT-compiled WebAssembly code.
//!
//! The library models the logic of the boundary between a host process and
//! native code produced by a compiler backend: the trap-metadata index that
//! maps a faulting instruction address back to a source-level cause, the
//! membership test deciding whether a fault belongs to managed code, the
//! protected-call bookkeeping that turns hardware faults and early traps into
//! typed errors, the trampoline table that adapts generic argument buffers to
//! concrete calling conventions, and the unwind-frame registry that keeps the
//! platform stack-unwinder consistent while JIT code is installed and removed.
//!
//! Platform primitives that cannot be reasoned about here (signal
//! installation, the non-local jump back to a saved execution point, the
//! libunwind frame registration calls) live outside this crate; every decision
//! those primitives act on is computed and verified here.

pub mod call;
pub mod fault;
pub mod handler;
pub mod protect;
pub mod region;
pub mod resolver;
pub mod trampoline;
pub mod trap;
pub mod unwind;
pub mod values;
