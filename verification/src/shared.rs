//! The generic call and resolution machinery every actor uses: resolving an
//! address to its canonical ID form, and the control-address query as the
//! standing example of a higher-level use of the invocation primitive.

use vstd::prelude::*;

use crate::address::Address;
use crate::address::AddressView;
use crate::address::addr_of_bytes;
use crate::econ::TokenAmount;
use crate::error::ActorError;
use crate::error::CallErrorView;
use crate::error::DecodeError;
use crate::runtime::METHOD_SEND;
use crate::runtime::Runtime;
use crate::runtime::SendRecord;
use crate::runtime::is_zero_send;
use crate::runtime::pushed_one;
use crate::runtime::resolve_in;

verus! {

/// Method selector on which a target actor reports its owner, worker and
/// control addresses.
pub const METHOD_CONTROL_ADDRESSES: u64 = 2;

/// Resolves `address` to its canonical ID form.
///
/// The fast path asks the runtime's resolution lookup and returns an
/// existing mapping with no side effect. Otherwise one zero-value sentinel
/// send to `address` is made, unconditionally, to cause a mapping to be
/// created, and the lookup is asked once more; assignment is a one-shot,
/// terminal side effect of a successful transfer, so there is no retry. A
/// mapping still absent after a successful send is reported as the dedicated
/// inconsistency error, never as success.
pub fn resolve_to_id<RT: Runtime>(rt: &mut RT, address: &Address) -> (r: Result<
    Address,
    ActorError,
>)
    ensures
        ({
            let m0 = old(rt).mapping();
            let s0 = old(rt).sends();
            let s1 = final(rt).sends();
            let a = address@;
            match r {
                Ok(id_addr) => {
                    &&& id_addr@ is Id
                    &&& final(rt).lookup_ok()
                    &&& resolve_in(final(rt).mapping(), a) == Some(id_addr@)
                    &&& if resolve_in(m0, a) is Some {
                        &&& *final(rt) == *old(rt)
                        &&& resolve_in(m0, a) == Some(id_addr@)
                    } else {
                        &&& old(rt).lookup_ok()
                        &&& pushed_one(s0, s1)
                        &&& is_zero_send(s1.last(), a)
                        &&& s1.last().outcome is Ok
                        &&& m0.submap_of(final(rt).mapping())
                    }
                },
                Err(ActorError::Call { address: ctx, error }) => {
                    &&& ctx@ == a
                    &&& old(rt).lookup_ok() && final(rt).lookup_ok()
                    &&& resolve_in(m0, a) is None
                    &&& pushed_one(s0, s1)
                    &&& is_zero_send(s1.last(), a)
                    &&& s1.last().outcome == Result::<Seq<u8>, CallErrorView>::Err(error@)
                    &&& final(rt).mapping() == m0
                },
                Err(ActorError::InconsistentMapping { address: ctx }) => {
                    &&& ctx@ == a
                    &&& old(rt).lookup_ok() && final(rt).lookup_ok()
                    &&& resolve_in(m0, a) is None
                    &&& resolve_in(final(rt).mapping(), a) is None
                    &&& pushed_one(s0, s1)
                    &&& is_zero_send(s1.last(), a)
                    &&& s1.last().outcome is Ok
                    &&& m0.submap_of(final(rt).mapping())
                },
                Err(ActorError::Store { address: ctx, error: _ }) => {
                    &&& ctx@ == a
                    &&& !final(rt).lookup_ok()
                    &&& {
                        ||| (s1 == s0 && *final(rt) == *old(rt) && !old(rt).lookup_ok())
                        ||| {
                            &&& old(rt).lookup_ok()
                            &&& resolve_in(m0, a) is None
                            &&& pushed_one(s0, s1)
                            &&& is_zero_send(s1.last(), a)
                            &&& s1.last().outcome is Ok
                            &&& m0.submap_of(final(rt).mapping())
                        }
                    }
                },
                Err(ActorError::Decode { .. }) => false,
            }
        }),
{
    match rt.resolve_address(address) {
        Err(e) => {
            return Err(ActorError::Store { address: address.clone(), error: e });
        },
        Ok(Some(id_addr)) => {
            return Ok(id_addr);
        },
        Ok(None) => {},
    }
    let params: Vec<u8> = Vec::new();
    proof {
        assert(params@ =~= Seq::<u8>::empty());
    }
    match rt.send(address, METHOD_SEND, params, TokenAmount::zero()) {
        Err(e) => {
            proof {
                lemma_pushed_one(old(rt).sends(), rt.sends());
            }
            return Err(ActorError::Call { address: address.clone(), error: e });
        },
        Ok(_) => {},
    }
    proof {
        lemma_pushed_one(old(rt).sends(), rt.sends());
    }
    match rt.resolve_address(address) {
        Err(e) => Err(ActorError::Store { address: address.clone(), error: e }),
        Ok(Some(id_addr)) => Ok(id_addr),
        Ok(None) => Err(ActorError::InconsistentMapping { address: address.clone() }),
    }
}

/// A sequence extended by one record satisfies `pushed_one`.
proof fn lemma_pushed_one(s0: Seq<SendRecord>, s1: Seq<SendRecord>)
    requires
        exists|rec: SendRecord| s1 == s0.push(rec),
    ensures
        pushed_one(s0, s1),
        s1.last() == s1[s0.len() as int],
{
    let rec = choose|rec: SendRecord| s1 == s0.push(rec);
    assert(s1.drop_last() =~= s0);
    assert(s1.last() == rec);
}

/// What a control-address payload decodes to: the outer array as three byte
/// strings, read by `decode_address_triple`.
pub uninterp spec fn cbor_address_triple_of(payload: Seq<u8>) -> Option<
    (Seq<u8>, Seq<u8>, Seq<Seq<u8>>),
>;

/// Relies on `fvm_ipld_encoding::from_slice`: decoding a DAG-CBOR array of
/// two byte strings and a list of byte strings is a function of the payload
/// bytes alone, and fails exactly when the payload is not such an array.
#[verifier::external_body]
fn decode_address_triple(payload: &Vec<u8>) -> (r: Result<(Vec<u8>, Vec<u8>, Vec<Vec<u8>>), String>)
    ensures
        match r {
            Ok(t) => cbor_address_triple_of(payload@) == Some((t.0@, t.1@, t.2.deep_view())),
            Err(_) => cbor_address_triple_of(payload@) is None,
        },
{
    match fvm_ipld_encoding::from_slice::<
        (fvm_ipld_encoding::BytesDe, fvm_ipld_encoding::BytesDe, Vec<fvm_ipld_encoding::BytesDe>),
    >(payload.as_slice()) {
        Ok((o, w, c)) => Ok((o.0, w.0, c.into_iter().map(|b| b.0).collect())),
        Err(e) => Err(format!("{}", e)),
    }
}

/// The addresses a sequence of encoded byte strings denotes, if every one of
/// them parses.
pub open spec fn parsed_addresses(bs: Seq<Seq<u8>>) -> Option<Seq<AddressView>> {
    if forall|i: int| 0 <= i < bs.len() ==> addr_of_bytes(bs[i]) is Some {
        Some(
            Seq::new(
                bs.len(),
                |i: int|
                    match addr_of_bytes(bs[i]) {
                        Some(a) => a,
                        None => arbitrary(),
                    },
            ),
        )
    } else {
        None
    }
}

/// The owner, worker and control addresses a payload decodes to, if it is a
/// well-formed control-address report.
pub open spec fn decoded_control_addresses(payload: Seq<u8>) -> Option<
    (AddressView, AddressView, Seq<AddressView>),
> {
    match cbor_address_triple_of(payload) {
        Some(t) => match (addr_of_bytes(t.0), addr_of_bytes(t.1), parsed_addresses(t.2)) {
            (Some(o), Some(w), Some(c)) => Some((o, w, c)),
            _ => None,
        },
        None => None,
    }
}

/// Interprets a control-address payload returned for `target`: exactly the
/// decoded triple where the payload is well-formed, and the decode failure,
/// carrying `target`, where it is not.
pub fn decode_control_addresses(target: &Address, payload: &Vec<u8>) -> (r: Result<
    (Address, Address, Vec<Address>),
    ActorError,
>)
    ensures
        match decoded_control_addresses(payload@) {
            Some(t) => r matches Ok(v) && v.0@ == t.0 && v.1@ == t.1 && v.2.deep_view() == t.2,
            None => r matches Err(e) && e matches ActorError::Decode { address, .. } && address@
                == target@,
        },
{
    let (owner_bytes, worker_bytes, control_bytes) = match decode_address_triple(payload) {
        Ok(t) => t,
        Err(message) => {
            return Err(
                ActorError::Decode {
                    address: target.clone(),
                    error: DecodeError { message },
                },
            );
        },
    };
    let owner = match Address::from_bytes(&owner_bytes) {
        Some(a) => a,
        None => {
            return Err(decode_failure(target));
        },
    };
    let worker = match Address::from_bytes(&worker_bytes) {
        Some(a) => a,
        None => {
            return Err(decode_failure(target));
        },
    };
    let mut controls: Vec<Address> = Vec::new();
    let ghost cbs = control_bytes.deep_view();
    let mut i: usize = 0;
    while i < control_bytes.len()
        invariant
            i <= control_bytes.len(),
            cbs == control_bytes.deep_view(),
            cbor_address_triple_of(payload@) == Some((owner_bytes@, worker_bytes@, cbs)),
            addr_of_bytes(owner_bytes@) == Some(owner@),
            addr_of_bytes(worker_bytes@) == Some(worker@),
            cbs.len() == control_bytes.len(),
            forall|j: int| 0 <= j < cbs.len() ==> cbs[j] == control_bytes@[j]@,
            forall|j: int| 0 <= j < i ==> addr_of_bytes(cbs[j]) is Some,
            controls.deep_view().len() == i,
            forall|j: int|
                0 <= j < i ==> Some(#[trigger] controls.deep_view()[j]) == addr_of_bytes(cbs[j]),
        decreases control_bytes.len() - i,
    {
        let ghost dv = controls.deep_view();
        match Address::from_bytes(&control_bytes[i]) {
            Some(a) => {
                proof {
                    assert(Some(a@) == addr_of_bytes(cbs[i as int]));
                }
                controls.push(a);
                proof {
                    assert(controls.deep_view() =~= dv.push(a@));
                }
            },
            None => {
                proof {
                    assert(!(forall|j: int|
                        0 <= j < cbs.len() ==> addr_of_bytes(cbs[j]) is Some)) by {
                        assert(addr_of_bytes(cbs[i as int]) is None);
                    }
                    assert(decoded_control_addresses(payload@) is None);
                }
                return Err(decode_failure(target));
            },
        }
        i += 1;
    }
    proof {
        match parsed_addresses(cbs) {
            Some(cs) => {
                assert(controls.deep_view() =~= cs);
            },
            None => {
                assert(false);
            },
        }
    }
    Ok((owner, worker, controls))
}

/// The decode failure for an ill-formed payload returned by `target`.
fn decode_failure(target: &Address) -> (r: ActorError)
    ensures
        r matches ActorError::Decode { address, .. } && address@ == target@,
{
    ActorError::Decode {
        address: target.clone(),
        error: DecodeError { message: "payload holds an undecodable address".to_string() },
    }
}

/// Whether `rec` is the zero-value control-address query to `target` with
/// empty parameters.
pub open spec fn is_control_request(rec: SendRecord, target: AddressView) -> bool {
    &&& rec.to == target
    &&& rec.method == METHOD_CONTROL_ADDRESSES
    &&& rec.params == Seq::<u8>::empty()
    &&& rec.value == 0
}

/// Asks `target` for its owner, worker and control addresses.
///
/// A pure pass-through with no retry and no caching: one zero-value
/// invocation of the control-address method, whose returned payload is
/// interpreted by `decode_control_addresses` and nothing else. The result is
/// exactly the decoded triple of the recorded payload; a failed call or an
/// undecodable payload is surfaced, carrying `target`.
pub fn request_control_addresses<RT: Runtime>(rt: &mut RT, target: &Address) -> (r: Result<
    (Address, Address, Vec<Address>),
    ActorError,
>)
    ensures
        ({
            let s0 = old(rt).sends();
            let s1 = final(rt).sends();
            &&& pushed_one(s0, s1)
            &&& is_control_request(s1.last(), target@)
            &&& old(rt).mapping().submap_of(final(rt).mapping())
            &&& match r {
                Ok(v) => s1.last().outcome matches Ok(d) && decoded_control_addresses(d) == Some(
                    (v.0@, v.1@, v.2.deep_view()),
                ),
                Err(ActorError::Call { address: ctx, error }) => ctx@ == target@
                    && s1.last().outcome == Result::<Seq<u8>, CallErrorView>::Err(error@),
                Err(ActorError::Decode { address: ctx, error: _ }) => ctx@ == target@ && (
                s1.last().outcome matches Ok(d) && decoded_control_addresses(d) is None),
                _ => false,
            }
        }),
{
    let params: Vec<u8> = Vec::new();
    proof {
        assert(params@ =~= Seq::<u8>::empty());
    }
    let payload = match rt.send(target, METHOD_CONTROL_ADDRESSES, params, TokenAmount::zero()) {
        Ok(d) => d,
        Err(e) => {
            proof {
                lemma_pushed_one(old(rt).sends(), rt.sends());
            }
            return Err(ActorError::Call { address: target.clone(), error: e });
        },
    };
    proof {
        lemma_pushed_one(old(rt).sends(), rt.sends());
    }
    decode_control_addresses(target, &payload)
}

/// Law: resolution is idempotent. If a first call resolves `address`
/// successfully, a second call made immediately after performs no further
/// invocation and returns the same canonical ID; across both calls at most
/// one invocation is made, and exactly one where no mapping existed.
pub fn resolve_to_id_twice<RT: Runtime>(rt: &mut RT, address: &Address) -> (r: (
    Result<Address, ActorError>,
    Result<Address, ActorError>,
))
    ensures
        ({
            let s0 = old(rt).sends();
            let s1 = final(rt).sends();
            r.0 matches Ok(first) ==> {
                &&& r.1 matches Ok(second) && second@ == first@
                &&& (s1 == s0 || pushed_one(s0, s1))
                &&& resolve_in(old(rt).mapping(), address@) is None ==> pushed_one(s0, s1)
                &&& resolve_in(old(rt).mapping(), address@) is Some ==> s1 == s0
            }
        }),
{
    let first = resolve_to_id(rt, address);
    let second = resolve_to_id(rt, address);
    (first, second)
}

} // verus!
