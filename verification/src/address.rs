//! Addresses of participants (actors and external accounts).
//!
//! An address is an immutable, versioned value: either the canonical numeric
//! ID form, the short stable identifier used as a storage key, or a
//! pre-resolution form, kept opaquely as its protocol tag together with its
//! raw payload bytes. Equality is structural on the encoded bytes, which the
//! encoding below makes structural on the variants themselves.

use vstd::prelude::*;

verus! {

/// Protocol tag of the canonical ID form in the binary encoding.
pub const ID_PROTOCOL: u8 = 0;

/// Mathematical form of an address.
pub enum AddressView {
    /// Canonical numeric ID.
    Id(u64),
    /// Pre-resolution form: protocol tag (never `ID_PROTOCOL`) and payload.
    Key(u8, Seq<u8>),
}

/// An address in any supported representation.
#[derive(Debug)]
pub enum Address {
    /// Canonical numeric ID.
    Id(u64),
    /// Pre-resolution form: protocol tag and raw payload bytes.
    Key(u8, Vec<u8>),
}

impl View for Address {
    type V = AddressView;

    open spec fn view(&self) -> AddressView {
        match self {
            Address::Id(i) => AddressView::Id(*i),
            Address::Key(p, b) => AddressView::Key(*p, b@),
        }
    }
}

impl DeepView for Address {
    type V = AddressView;

    open spec fn deep_view(&self) -> AddressView {
        self@
    }
}

impl Clone for Address {
    fn clone(&self) -> (r: Self)
        ensures
            r@ == self@,
    {
        match self {
            Address::Id(i) => Address::Id(*i),
            Address::Key(p, b) => Address::Key(*p, copy_bytes(b)),
        }
    }
}

impl PartialEq for Address {
    fn eq(&self, other: &Self) -> (r: bool) {
        match (self, other) {
            (Address::Id(a), Address::Id(b)) => *a == *b,
            (Address::Key(p, pb), Address::Key(q, qb)) => *p == *q && bytes_eq(pb, qb),
            _ => false,
        }
    }
}

impl vstd::std_specs::cmp::PartialEqSpecImpl for Address {
    open spec fn obeys_eq_spec() -> bool {
        true
    }

    open spec fn eq_spec(&self, other: &Self) -> bool {
        self@ == other@
    }
}

/// Copies a suffix of a byte vector, starting at `from`.
pub fn bytes_suffix(src: &Vec<u8>, from: usize) -> (r: Vec<u8>)
    requires
        from <= src.len(),
    ensures
        r@ == src@.subrange(from as int, src@.len() as int),
{
    let mut r: Vec<u8> = Vec::new();
    let mut i: usize = from;
    while i < src.len()
        invariant
            from <= i <= src.len(),
            r@ == src@.subrange(from as int, i as int),
        decreases src.len() - i,
    {
        r.push(src[i]);
        proof {
            assert(r@ =~= src@.subrange(from as int, i + 1 as int));
        }
        i += 1;
    }
    r
}

/// Copies a byte vector.
pub fn copy_bytes(src: &Vec<u8>) -> (r: Vec<u8>)
    ensures
        r@ == src@,
{
    let r = bytes_suffix(src, 0);
    proof {
        assert(src@.subrange(0, src@.len() as int) =~= src@);
    }
    r
}

/// Structural equality of two byte vectors.
pub fn bytes_eq(a: &Vec<u8>, b: &Vec<u8>) -> (r: bool)
    ensures
        r <==> a@ == b@,
{
    if a.len() != b.len() {
        return false;
    }
    let mut i: usize = 0;
    while i < a.len()
        invariant
            i <= a.len(),
            a.len() == b.len(),
            forall|j: int| 0 <= j < i ==> a@[j] == b@[j],
        decreases a.len() - i,
    {
        if a[i] != b[i] {
            return false;
        }
        i += 1;
    }
    proof {
        assert(a@ =~= b@);
    }
    true
}

/// The canonical unsigned varint encoding of `n`: seven value bits per byte,
/// least significant group first, the high bit marking continuation.
pub open spec fn uvarint_of(n: u64) -> Seq<u8>
    decreases n,
{
    if n < 128 {
        seq![n as u8]
    } else {
        seq![(n % 128 + 128) as u8] + uvarint_of(n / 128)
    }
}

/// Reads back a canonical unsigned varint: `Some(n)` exactly when the bytes
/// are `uvarint_of(n)` for some `n`; non-minimal or overlong encodings and
/// values past `u64::MAX` give `None`.
pub open spec fn uvarint_value(b: Seq<u8>) -> Option<u64>
    decreases b.len(),
{
    if b.len() == 0 {
        None
    } else if b[0] < 128 {
        if b.len() == 1 {
            Some(b[0] as u64)
        } else {
            None
        }
    } else {
        match uvarint_value(b.drop_first()) {
            Some(m) => {
                let c = (b[0] - 128) as u64;
                if 1 <= m && m <= (u64::MAX - c) / 128 {
                    Some((m * 128 + c) as u64)
                } else {
                    None
                }
            },
            None => None,
        }
    }
}

/// Every value reads back from its canonical encoding.
pub proof fn lemma_uvarint_round_trip(n: u64)
    ensures
        uvarint_value(uvarint_of(n)) == Some(n),
    decreases n,
{
    if n >= 128 {
        lemma_uvarint_round_trip(n / 128);
        let e = uvarint_of(n);
        assert(e.drop_first() =~= uvarint_of(n / 128));
        let m = (n / 128) as u64;
        let c = (n % 128) as u64;
        assert(m * 128 + c == n) by (nonlinear_arith)
            requires
                m == n / 128,
                c == n % 128,
        ;
        assert(m <= (u64::MAX - c) / 128) by (nonlinear_arith)
            requires
                m * 128 + c <= u64::MAX,
                c < 128,
        ;
    }
}

/// The address denoted by an encoded byte string: the protocol byte followed
/// by the payload, which for the ID protocol must be a canonical varint.
pub open spec fn addr_of_bytes(b: Seq<u8>) -> Option<AddressView> {
    if b.len() < 2 {
        None
    } else if b[0] == ID_PROTOCOL {
        match uvarint_value(b.drop_first()) {
            Some(n) => Some(AddressView::Id(n)),
            None => None,
        }
    } else {
        Some(AddressView::Key(b[0], b.drop_first()))
    }
}

/// Whether an address view is well formed: a pre-resolution form never
/// carries the ID protocol tag and never has an empty payload.
pub open spec fn wf_address(a: AddressView) -> bool {
    match a {
        AddressView::Id(_) => true,
        AddressView::Key(p, b) => p != ID_PROTOCOL && b.len() >= 1,
    }
}

/// The encoded bytes of an address: the protocol byte followed by the
/// payload, the ID payload being the canonical varint.
pub open spec fn addr_bytes_of(a: AddressView) -> Seq<u8> {
    match a {
        AddressView::Id(n) => seq![ID_PROTOCOL] + uvarint_of(n),
        AddressView::Key(p, b) => seq![p] + b,
    }
}

/// Law: the encoding is faithful. Every well-formed address reads back from
/// its encoded bytes, so two addresses are equal exactly when their encoded
/// bytes are: equality is structural on the encoding.
pub proof fn lemma_address_encoding_faithful(a: AddressView, b: AddressView)
    requires
        wf_address(a),
        wf_address(b),
    ensures
        addr_of_bytes(addr_bytes_of(a)) == Some(a),
        addr_bytes_of(a) == addr_bytes_of(b) <==> a == b,
{
    lemma_addr_bytes_round_trip(a);
    lemma_addr_bytes_round_trip(b);
}

/// A well-formed address reads back from its encoded bytes.
proof fn lemma_addr_bytes_round_trip(a: AddressView)
    requires
        wf_address(a),
    ensures
        addr_of_bytes(addr_bytes_of(a)) == Some(a),
{
    match a {
        AddressView::Id(n) => {
            lemma_uvarint_round_trip(n);
            assert(uvarint_of(n).len() >= 1);
            assert(addr_bytes_of(a).drop_first() =~= uvarint_of(n));
        },
        AddressView::Key(p, b) => {
            assert(addr_bytes_of(a).drop_first() =~= b);
        },
    }
}

impl Address {
    /// Whether this address is well formed, as `wf_address` says of its
    /// view.
    pub fn is_wf(&self) -> (r: bool)
        ensures
            r <==> wf_address(self@),
    {
        match self {
            Address::Id(_) => true,
            Address::Key(p, b) => *p != ID_PROTOCOL && b.len() >= 1,
        }
    }

    /// Encodes this address, exactly as `addr_bytes_of` describes the
    /// encoding.
    pub fn to_bytes(&self) -> (r: Vec<u8>)
        ensures
            r@ == addr_bytes_of(self@),
    {
        let mut r: Vec<u8> = Vec::new();
        match self {
            Address::Id(n) => {
                r.push(ID_PROTOCOL);
                let payload = uvarint_encode(*n);
                append_bytes(&mut r, &payload);
                proof {
                    assert(r@ =~= addr_bytes_of(self@));
                }
            },
            Address::Key(p, b) => {
                r.push(*p);
                append_bytes(&mut r, b);
                proof {
                    assert(r@ =~= addr_bytes_of(self@));
                }
            },
        }
        r
    }

    /// Reads an address from its encoded bytes, exactly as `addr_of_bytes`
    /// describes the encoding.
    pub fn from_bytes(bytes: &Vec<u8>) -> (r: Option<Address>)
        ensures
            match r {
                Some(a) => addr_of_bytes(bytes@) == Some(a@),
                None => addr_of_bytes(bytes@) is None,
            },
    {
        if bytes.len() < 2 {
            return None;
        }
        proof {
            assert(bytes@.subrange(1, bytes@.len() as int) =~= bytes@.drop_first());
        }
        if bytes[0] == ID_PROTOCOL {
            match parse_uvarint(bytes, 1) {
                Some(n) => Some(Address::Id(n)),
                None => None,
            }
        } else {
            Some(Address::Key(bytes[0], bytes_suffix(bytes, 1)))
        }
    }
}

/// Appends `src` to `dst`.
fn append_bytes(dst: &mut Vec<u8>, src: &Vec<u8>)
    ensures
        final(dst)@ == old(dst)@ + src@,
{
    let mut i: usize = 0;
    while i < src.len()
        invariant
            i <= src.len(),
            dst@ == old(dst)@ + src@.take(i as int),
        decreases src.len() - i,
    {
        dst.push(src[i]);
        proof {
            assert(dst@ =~= old(dst)@ + src@.take(i + 1 as int));
        }
        i += 1;
    }
    proof {
        assert(src@.take(src@.len() as int) =~= src@);
        assert(old(dst)@ + src@.take(0) =~= old(dst)@);
    }
}

/// Writes the canonical varint encoding of `n`.
fn uvarint_encode(n: u64) -> (r: Vec<u8>)
    ensures
        r@ == uvarint_of(n),
{
    let mut r: Vec<u8> = Vec::new();
    let mut rest = n;
    proof {
        assert(Seq::<u8>::empty() + uvarint_of(n) =~= uvarint_of(n));
        assert(r@ =~= Seq::<u8>::empty());
    }
    while rest >= 128
        invariant
            uvarint_of(n) == r@ + uvarint_of(rest),
        decreases rest,
    {
        let ghost r0 = r@;
        let b = (rest % 128 + 128) as u8;
        r.push(b);
        proof {
            assert(uvarint_of(rest) == seq![b] + uvarint_of(rest / 128));
            assert(r0 + uvarint_of(rest) =~= r@ + uvarint_of(rest / 128));
        }
        rest = rest / 128;
    }
    let ghost r1 = r@;
    r.push(rest as u8);
    proof {
        assert(uvarint_of(rest) == seq![rest as u8]);
        assert(r1 + uvarint_of(rest) =~= r@);
    }
    r
}

/// Reads the canonical varint that the suffix of `bytes` starting at `i`
/// holds, if it holds one.
fn parse_uvarint(bytes: &Vec<u8>, i: usize) -> (r: Option<u64>)
    requires
        i <= bytes.len(),
    ensures
        r == uvarint_value(bytes@.subrange(i as int, bytes@.len() as int)),
    decreases bytes.len() - i,
{
    let ghost tail = bytes@.subrange(i as int, bytes@.len() as int);
    if i == bytes.len() {
        return None;
    }
    let b0 = bytes[i];
    if b0 < 128 {
        if i + 1 == bytes.len() {
            Some(b0 as u64)
        } else {
            None
        }
    } else {
        proof {
            assert(tail.drop_first() =~= bytes@.subrange(i + 1 as int, bytes@.len() as int));
        }
        match parse_uvarint(bytes, i + 1) {
            Some(m) => {
                let c = (b0 - 128) as u64;
                if 1 <= m && m <= (u64::MAX - c) / 128 {
                    proof {
                        assert(m * 128 <= u64::MAX - c) by (nonlinear_arith)
                            requires
                                m <= (u64::MAX - c) / 128,
                                c < 128,
                        ;
                    }
                    Some(m * 128 + c)
                } else {
                    None
                }
            },
            None => None,
        }
    }
}

} // verus!
