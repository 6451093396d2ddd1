//! Two record stores applying authorization-gated state transitions against a
//! shared ledger: a patient consent registry (`vault`) and a sealed-bid
//! auction registry (`market`).
//!
//! The durable key-value store, the identity subsystem that authenticates the
//! invoking principal, and the ledger clock are external collaborators: the
//! host resolves them and hands their results in as plain values (the state
//! itself, the authenticated invoker, the current timestamp). Every rule that
//! decides who may trigger a transition, what must hold before it, and what
//! the store looks like afterwards lives here and is verified.

use vstd::prelude::*;

pub mod market;
pub mod vault;

verus! {

/// An identity on the hosting ledger: an opaque fixed-width identifier,
/// compared only for equality and used as a lookup key.
pub type Address = u64;

} // verus!
