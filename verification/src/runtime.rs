//! The host runtime interface this crate consumes.
//!
//! The runtime performs synchronous, atomic cross-actor invocations and
//! answers resolution lookups against the durable state tree. Both are
//! specified here at their interface; actor logic built on this crate is
//! verified against these contracts, and each runtime implementation is in
//! turn held to them.

use vstd::prelude::*;

use crate::address::Address;
use crate::address::AddressView;
use crate::econ::TokenAmount;
use crate::error::CallError;
use crate::error::CallErrorView;
use crate::error::StoreError;

verus! {

/// Method selector of the sentinel "send": transfer value only, execute no
/// actor logic. Used deliberately to trigger address assignment.
pub const METHOD_SEND: u64 = 0;

/// One invocation as the runtime records it: target, method selector,
/// parameters, transferred value, and the outcome the call produced.
pub struct SendRecord {
    pub to: AddressView,
    pub method: u64,
    pub params: Seq<u8>,
    pub value: u128,
    pub outcome: Result<Seq<u8>, CallErrorView>,
}

/// Whether `rec` is the zero-value sentinel send to `a` with empty
/// parameters.
pub open spec fn is_zero_send(rec: SendRecord, a: AddressView) -> bool {
    &&& rec.to == a
    &&& rec.method == METHOD_SEND
    &&& rec.params == Seq::<u8>::empty()
    &&& rec.value == 0
}

/// Whether `s1` extends `s0` by exactly one record.
pub open spec fn pushed_one(s0: Seq<SendRecord>, s1: Seq<SendRecord>) -> bool {
    &&& s1.len() == s0.len() + 1
    &&& s1.drop_last() == s0
}

/// What the resolution lookup answers on mapping state `m` for address `a`:
/// an address already in canonical ID form answers itself; a pre-resolution
/// address answers its assigned ID, if one exists.
pub open spec fn resolve_in(m: Map<AddressView, u64>, a: AddressView) -> Option<AddressView> {
    match a {
        AddressView::Id(_) => Some(a),
        AddressView::Key(_, _) => if m.dom().contains(a) {
            Some(AddressView::Id(m[a]))
        } else {
            None
        },
    }
}

/// The host runtime as one actor invocation sees it.
///
/// The model carries three pieces of ghost state. `mapping` is the durable
/// association from pre-resolution addresses to canonical IDs: created only
/// as a side effect of a successful transfer, and once assigned, stable for
/// the lifetime of the chain state. `sends` is the history of invocations
/// performed through this runtime. `lookup_ok` says whether the resolution
/// lookup on the current state answers at all; execution is deterministic,
/// so it is a function of the state, not of the occasion.
///
/// Two properties are owed by the host, not established here. First, a
/// zero-value send is safe: beyond possibly materializing a mapping for the
/// target it has no economic or state effect. Second, calls run on a single
/// logical call stack in strict call/return order, so no two resolutions of
/// the same address race; the exclusive borrow a send takes reflects that
/// discipline.
pub trait Runtime {
    /// Durable resolution mappings: pre-resolution address to assigned ID.
    spec fn mapping(&self) -> Map<AddressView, u64>;

    /// History of the invocations performed through this runtime.
    spec fn sends(&self) -> Seq<SendRecord>;

    /// Whether the resolution lookup succeeds on the current state.
    spec fn lookup_ok(&self) -> bool;

    /// Resolution lookup. Read-only: no invocation, no side effect. Answers
    /// exactly what the current mapping state holds for `address`.
    fn resolve_address(&self, address: &Address) -> (r: Result<Option<Address>, StoreError>)
        ensures
            r is Ok <==> self.lookup_ok(),
            r matches Ok(o) ==> match o {
                Some(a) => resolve_in(self.mapping(), address@) == Some(a@),
                None => resolve_in(self.mapping(), address@) is None,
            },
    ;

    /// Synchronous invocation of `method` on `to`, transferring `value`
    /// atomically with the call.
    ///
    /// Exactly one invocation is recorded, whatever the outcome. Mappings
    /// only ever grow: one may be materialized for `to` as a side effect of
    /// a successful transfer, and a nested call may materialize others. A
    /// failed call commits nothing: the whole call's effects are discarded.
    fn send(&mut self, to: &Address, method: u64, params: Vec<u8>, value: TokenAmount) -> (r:
        Result<Vec<u8>, CallError>)
        ensures
            final(self).sends() == old(self).sends().push(
                SendRecord {
                    to: to@,
                    method: method,
                    params: params@,
                    value: value@,
                    outcome: match r {
                        Ok(d) => Ok(d@),
                        Err(e) => Err(e@),
                    },
                },
            ),
            old(self).mapping().submap_of(final(self).mapping()),
            r is Err ==> final(self).mapping() == old(self).mapping() && final(self).lookup_ok()
                == old(self).lookup_ok(),
    ;
}

} // verus!
