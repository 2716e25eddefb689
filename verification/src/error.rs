//! The closed taxonomy of failures this crate surfaces.
//!
//! Nothing here is recovered from or retried locally: every failure is
//! wrapped with the address or target involved and handed back to the
//! caller.

use vstd::prelude::*;

use crate::address::Address;

verus! {

/// The invoked actor rejected the call, ran out of allotted resources, or
/// does not support the method. Carries the callee's exit code and message.
#[derive(Debug)]
pub struct CallError {
    pub exit_code: u32,
    pub message: String,
}

/// Mathematical form of a `CallError`.
pub struct CallErrorView {
    pub exit_code: u32,
    pub message: Seq<char>,
}

impl View for CallError {
    type V = CallErrorView;

    open spec fn view(&self) -> CallErrorView {
        CallErrorView { exit_code: self.exit_code, message: self.message@ }
    }
}

impl Clone for CallError {
    fn clone(&self) -> (r: Self)
        ensures
            r@ == self@,
    {
        CallError { exit_code: self.exit_code, message: self.message.clone() }
    }
}

/// The runtime's resolution lookup itself failed (the backing store could
/// not answer).
#[derive(Debug)]
pub struct StoreError {
    pub message: String,
}

impl View for StoreError {
    type V = Seq<char>;

    open spec fn view(&self) -> Seq<char> {
        self.message@
    }
}

/// A returned payload did not match the schema the caller expected. Distinct
/// from `CallError`: the call itself succeeded.
#[derive(Debug)]
pub struct DecodeError {
    pub message: String,
}

impl View for DecodeError {
    type V = Seq<char>;

    open spec fn view(&self) -> Seq<char> {
        self.message@
    }
}

/// Every failure this crate's operations return, each variant carrying the
/// address it concerns.
#[derive(Debug)]
#[allow(inconsistent_fields)]
pub enum ActorError {
    /// The invocation failed; holds the callee's original error.
    Call { address: Address, error: CallError },
    /// The call succeeded but its payload was not decodable.
    Decode { address: Address, error: DecodeError },
    /// The resolution lookup failed before any verdict could be reached.
    Store { address: Address, error: StoreError },
    /// A mapping was still absent after a successful assignment attempt: the
    /// runtime accepted the transfer but assigned no ID.
    InconsistentMapping { address: Address },
}

} // verus!
