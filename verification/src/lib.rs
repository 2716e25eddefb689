//! Actor invocation and address resolution for a deterministic actor runtime.
//!
//! Actors interact through synchronous message sends mediated by a host
//! runtime. This crate specifies and verifies the generic machinery those
//! interactions rest on: the invocation primitive consumed at its interface,
//! and the resolution of an address in any supported form down to the
//! canonical numeric identifier used as a storage key.

use vstd::prelude::*;

pub mod address;
pub mod econ;
pub mod error;
pub mod mock;
pub mod runtime;
pub mod shared;

verus! {

/// Branching factor exponent for the indexed state structures (tries) that
/// actors built on this crate use elsewhere; published here as a fixed
/// constant of the protocol.
pub const HAMT_BIT_WIDTH: u32 = 5;

} // verus!
