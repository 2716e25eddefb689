//! An in-memory runtime, verified against the `Runtime` contracts.
//!
//! It keeps the resolution mappings in a table, answers lookups from it, and
//! materializes a fresh ID for an unmapped pre-resolution address as a side
//! effect of a successful send, exactly as the consensus rules promise of
//! the real host. Knobs make it misbehave on purpose — refuse sends, fail
//! lookups, or accept a transfer without assigning an ID — so that every
//! error path of the callers can be exercised.

use vstd::prelude::*;

use crate::address::Address;
use crate::address::AddressView;
use crate::address::copy_bytes;
use crate::econ::TokenAmount;
use crate::error::CallError;
use crate::error::StoreError;
use crate::runtime::Runtime;
use crate::runtime::SendRecord;

verus! {

/// One performed invocation, as the mock records it.
pub struct Invocation {
    pub to: Address,
    pub method: u64,
    pub params: Vec<u8>,
    pub value: u128,
    pub outcome: Result<Vec<u8>, CallError>,
}

impl View for Invocation {
    type V = SendRecord;

    open spec fn view(&self) -> SendRecord {
        SendRecord {
            to: self.to@,
            method: self.method,
            params: self.params@,
            value: self.value,
            outcome: match &self.outcome {
                Ok(d) => Ok(d@),
                Err(e) => Err(e@),
            },
        }
    }
}

impl DeepView for Invocation {
    type V = SendRecord;

    open spec fn deep_view(&self) -> SendRecord {
        self@
    }
}

/// The mapping a table of entries denotes; a later entry for the same key
/// wins.
pub open spec fn map_of(s: Seq<(Address, u64)>) -> Map<AddressView, u64>
    decreases s.len(),
{
    if s.len() == 0 {
        Map::empty()
    } else {
        map_of(s.drop_last()).insert(s.last().0@, s.last().1)
    }
}

/// Looks `a` up among the first `n` entries of the table, later entries
/// winning, exactly as `map_of` reads it.
fn lookup_id(entries: &Vec<(Address, u64)>, n: usize, a: &Address) -> (r: Option<u64>)
    requires
        n <= entries.len(),
    ensures
        ({
            let m = map_of(entries@.take(n as int));
            match r {
                Some(id) => m.dom().contains(a@) && m[a@] == id,
                None => !m.dom().contains(a@),
            }
        }),
    decreases n,
{
    if n == 0 {
        proof {
            assert(entries@.take(0) =~= Seq::<(Address, u64)>::empty());
        }
        None
    } else {
        proof {
            assert(entries@.take(n as int).drop_last() =~= entries@.take(n - 1 as int));
            assert(entries@.take(n as int).last() == entries@[n - 1 as int]);
        }
        if entries[n - 1].0 == *a {
            Some(entries[n - 1].1)
        } else {
            lookup_id(entries, n - 1, a)
        }
    }
}

/// The in-memory runtime.
pub struct MockRuntime {
    entries: Vec<(Address, u64)>,
    next_id: u64,
    assign_on_send: bool,
    send_failure: Option<CallError>,
    lookup_failure: bool,
    send_return: Vec<u8>,
    log: Vec<Invocation>,
}

impl Runtime for MockRuntime {
    closed spec fn mapping(&self) -> Map<AddressView, u64> {
        map_of(self.entries@)
    }

    closed spec fn sends(&self) -> Seq<SendRecord> {
        self.log.deep_view()
    }

    closed spec fn lookup_ok(&self) -> bool {
        !self.lookup_failure
    }

    fn resolve_address(&self, address: &Address) -> (r: Result<Option<Address>, StoreError>) {
        if self.lookup_failure {
            return Err(StoreError { message: String::new() });
        }
        proof {
            assert(self.entries@.take(self.entries@.len() as int) =~= self.entries@);
        }
        match address {
            Address::Id(i) => Ok(Some(Address::Id(*i))),
            Address::Key(_, _) => match lookup_id(&self.entries, self.entries.len(), address) {
                Some(id) => Ok(Some(Address::Id(id))),
                None => Ok(None),
            },
        }
    }

    fn send(&mut self, to: &Address, method: u64, params: Vec<u8>, value: TokenAmount) -> (r:
        Result<Vec<u8>, CallError>) {
        let ghost pre = *self;
        let failure = match &self.send_failure {
            Some(e) => Some(e.clone()),
            None => None,
        };
        match failure {
            Some(e) => {
                let returned = e.clone();
                self.log.push(
                    Invocation {
                        to: to.clone(),
                        method,
                        params,
                        value: value.atto,
                        outcome: Err(e),
                    },
                );
                proof {
                    assert(self.log.deep_view() =~= pre.log.deep_view().push(self.log@.last()@));
                }
                Err(returned)
            },
            None => {
                if self.assign_on_send {
                    let assign = match to {
                        Address::Id(_) => false,
                        Address::Key(_, _) => lookup_id(
                            &self.entries,
                            self.entries.len(),
                            to,
                        ).is_none(),
                    };
                    proof {
                        assert(self.entries@.take(self.entries@.len() as int) =~= self.entries@);
                    }
                    if assign {
                        self.entries.push((to.clone(), self.next_id));
                        if self.next_id < u64::MAX {
                            self.next_id = self.next_id + 1;
                        }
                        proof {
                            assert(self.entries@.drop_last() =~= pre.entries@);
                            assert(pre.mapping().submap_of(self.mapping()));
                        }
                    }
                }
                let data = copy_bytes(&self.send_return);
                let recorded = copy_bytes(&self.send_return);
                self.log.push(
                    Invocation {
                        to: to.clone(),
                        method,
                        params,
                        value: value.atto,
                        outcome: Ok(recorded),
                    },
                );
                proof {
                    assert(self.log.deep_view() =~= pre.log.deep_view().push(self.log@.last()@));
                }
                Ok(data)
            },
        }
    }
}

impl MockRuntime {
    /// A fresh runtime: no mappings, no invocations performed, lookups
    /// answering, sends succeeding with an empty payload, and a successful
    /// send to an unmapped pre-resolution address assigning a fresh ID.
    pub fn new() -> (r: MockRuntime)
        ensures
            r.mapping() == Map::<AddressView, u64>::empty(),
            r.sends() == Seq::<SendRecord>::empty(),
            r.lookup_ok(),
    {
        let r = MockRuntime {
            entries: Vec::new(),
            next_id: 100,
            assign_on_send: true,
            send_failure: None,
            lookup_failure: false,
            send_return: Vec::new(),
            log: Vec::new(),
        };
        proof {
            assert(r.entries@ =~= Seq::<(Address, u64)>::empty());
            assert(r.mapping() =~= Map::<AddressView, u64>::empty());
            assert(r.sends() =~= Seq::<SendRecord>::empty());
        }
        r
    }

    /// Records a durable mapping from `from` to the ID `id`. An address that
    /// is already mapped keeps its assignment: mappings are never
    /// reassigned.
    pub fn map_address(&mut self, from: Address, id: u64)
        ensures
            final(self).mapping() == if old(self).mapping().dom().contains(from@) {
                old(self).mapping()
            } else {
                old(self).mapping().insert(from@, id)
            },
            final(self).sends() == old(self).sends(),
            final(self).lookup_ok() == old(self).lookup_ok(),
    {
        let ghost pre = *self;
        proof {
            assert(self.entries@.take(self.entries@.len() as int) =~= self.entries@);
        }
        match lookup_id(&self.entries, self.entries.len(), &from) {
            Some(_) => {},
            None => {
                self.entries.push((from, id));
                proof {
                    assert(self.entries@.drop_last() =~= pre.entries@);
                }
            },
        }
    }

    /// The ID the next materialized mapping will receive.
    pub fn set_next_id(&mut self, id: u64)
        ensures
            final(self).mapping() == old(self).mapping(),
            final(self).sends() == old(self).sends(),
            final(self).lookup_ok() == old(self).lookup_ok(),
    {
        self.next_id = id;
    }

    /// Makes every following send fail with this call error.
    pub fn fail_sends(&mut self, exit_code: u32, message: String)
        ensures
            final(self).mapping() == old(self).mapping(),
            final(self).sends() == old(self).sends(),
            final(self).lookup_ok() == old(self).lookup_ok(),
    {
        self.send_failure = Some(CallError { exit_code, message });
    }

    /// Decides whether a successful send to an unmapped pre-resolution
    /// address assigns an ID; switching this off models a host that accepts
    /// the transfer without materializing a mapping.
    pub fn set_assign_on_send(&mut self, assign: bool)
        ensures
            final(self).mapping() == old(self).mapping(),
            final(self).sends() == old(self).sends(),
            final(self).lookup_ok() == old(self).lookup_ok(),
    {
        self.assign_on_send = assign;
    }

    /// Makes every following resolution lookup fail.
    pub fn fail_lookups(&mut self, fail: bool)
        ensures
            final(self).mapping() == old(self).mapping(),
            final(self).sends() == old(self).sends(),
            final(self).lookup_ok() == !fail,
    {
        self.lookup_failure = fail;
    }

    /// The payload every following successful send returns.
    pub fn set_send_return(&mut self, data: Vec<u8>)
        ensures
            final(self).mapping() == old(self).mapping(),
            final(self).sends() == old(self).sends(),
            final(self).lookup_ok() == old(self).lookup_ok(),
    {
        self.send_return = data;
    }

    /// How many invocations were performed through this runtime.
    pub fn send_count(&self) -> (n: usize)
        ensures
            n == self.sends().len(),
    {
        self.log.len()
    }

    /// The invocations performed through this runtime, in order.
    pub fn invocations(&self) -> (r: &Vec<Invocation>)
        ensures
            r.deep_view() == self.sends(),
    {
        &self.log
    }
}

} // verus!
