//! Host side of a guest/host call protocol for a WebAssembly module sandbox.
//!
//! A sandboxed guest and its host exchange arbitrarily sized byte buffers
//! through the guest's own linear memory, addressed only by pointer/length
//! pairs. This crate supplies the bounds-checked marshaling for that boundary:
//! a memory accessor ([`memory::GuestMemory`]), the per-instance record of
//! pending requests and results ([`protocol::ModuleState`]), and the set of
//! host functions the guest calls back into during an invocation
//! ([`protocol`]). Loading and running the guest module, and dispatching host
//! calls, belong to a surrounding engine; the engine drives these functions
//! and performs the outside work they decide on.

use vstd::prelude::*;

pub mod memory;
pub mod protocol;
mod text;

verus! {

/// A marshaling fault: the guest handed the host a pointer/length pair that
/// leaves its linear memory, or bytes that are not valid UTF-8 where text is
/// required. A fault is fatal for the current call and must not be confused
/// with a guest-reported error, which flows through the module state as data.
#[derive(Clone, Copy, Debug, PartialEq, Eq, Structural)]
pub enum Fault {
    /// A pointer/length range falls outside the guest's current memory.
    OutOfBounds,
    /// Bytes that must be text are not valid UTF-8.
    InvalidUtf8,
}

} // verus!
