use actor_shared::HAMT_BIT_WIDTH;
use actor_shared::address::Address;
use actor_shared::econ::TokenAmount;

use fvm_shared::address::Address as FvmAddress;

#[test]
fn parses_id_address_bytes() {
    assert_eq!(Address::from_bytes(&vec![0, 7]), Some(Address::Id(7)));
    assert_eq!(Address::from_bytes(&vec![0, 0]), Some(Address::Id(0)));
    assert_eq!(Address::from_bytes(&vec![0, 127]), Some(Address::Id(127)));
    assert_eq!(Address::from_bytes(&vec![0, 128, 1]), Some(Address::Id(128)));
    assert_eq!(Address::from_bytes(&vec![0, 172, 2]), Some(Address::Id(300)));
}

#[test]
fn parses_key_address_bytes() {
    assert_eq!(
        Address::from_bytes(&vec![1, 10, 20, 30]),
        Some(Address::Key(1, vec![10, 20, 30])),
    );
    assert_eq!(Address::from_bytes(&vec![3, 0]), Some(Address::Key(3, vec![0])));
}

#[test]
fn parses_the_native_id_encoding() {
    for id in [0u64, 1, 127, 128, 300, 16384, u64::MAX] {
        let bytes = FvmAddress::new_id(id).to_bytes();
        assert_eq!(Address::from_bytes(&bytes), Some(Address::Id(id)));
    }
}

#[test]
fn parses_the_native_key_encoding() {
    let secp = FvmAddress::new_secp256k1(&[9u8; 65]).unwrap();
    let bytes = secp.to_bytes();
    match Address::from_bytes(&bytes) {
        Some(Address::Key(protocol, payload)) => {
            assert_eq!(protocol, bytes[0]);
            assert_eq!(payload, bytes[1..].to_vec());
        },
        other => panic!("expected a key address, got {:?}", other),
    }
}

#[test]
fn rejects_malformed_address_bytes() {
    assert_eq!(Address::from_bytes(&vec![]), None);
    assert_eq!(Address::from_bytes(&vec![0]), None);
    assert_eq!(Address::from_bytes(&vec![1]), None);
    // truncated varint: continuation bit with nothing after it
    assert_eq!(Address::from_bytes(&vec![0, 128]), None);
    // non-minimal varint: a trailing zero group
    assert_eq!(Address::from_bytes(&vec![0, 128, 0]), None);
    // trailing bytes after the terminating group
    assert_eq!(Address::from_bytes(&vec![0, 7, 0]), None);
    // one past u64::MAX
    let mut too_big = vec![0u8];
    too_big.extend([128u8; 9]);
    too_big.push(2);
    assert_eq!(Address::from_bytes(&too_big), None);
}

#[test]
fn encodes_like_the_native_encoder() {
    for id in [0u64, 1, 127, 128, 300, 16384, u64::MAX] {
        assert_eq!(Address::Id(id).to_bytes(), FvmAddress::new_id(id).to_bytes());
    }
    let secp = FvmAddress::new_secp256k1(&[3u8; 65]).unwrap();
    let bytes = secp.to_bytes();
    assert_eq!(Address::Key(bytes[0], bytes[1..].to_vec()).to_bytes(), bytes);
}

#[test]
fn encoded_addresses_read_back() {
    let cases = vec![
        Address::Id(0),
        Address::Id(300),
        Address::Id(u64::MAX),
        Address::Key(1, vec![9]),
        Address::Key(4, vec![1, 2, 3, 4]),
    ];
    for a in cases {
        assert_eq!(Address::from_bytes(&a.to_bytes()), Some(a));
    }
}

#[test]
fn address_equality_is_structural() {
    assert_eq!(Address::Id(5), Address::Id(5));
    assert_ne!(Address::Id(5), Address::Id(6));
    assert_eq!(Address::Key(1, vec![1, 2]), Address::Key(1, vec![1, 2]));
    assert_ne!(Address::Key(1, vec![1, 2]), Address::Key(2, vec![1, 2]));
    assert_ne!(Address::Key(1, vec![1, 2]), Address::Key(1, vec![1, 3]));
    assert_ne!(Address::Id(5), Address::Key(0, vec![5]));
}

#[test]
fn well_formedness_of_addresses() {
    assert!(Address::Id(0).is_wf());
    assert!(Address::Key(1, vec![2]).is_wf());
    // a pre-resolution form never carries the ID protocol tag
    assert!(!Address::Key(0, vec![2]).is_wf());
    // nor an empty payload
    assert!(!Address::Key(1, vec![]).is_wf());
}

#[test]
fn zero_token_amount_is_zero() {
    assert!(TokenAmount::zero().is_zero());
    assert_eq!(TokenAmount::zero().atto, 0);
    assert!(!TokenAmount { atto: 1 }.is_zero());
}

#[test]
fn published_trie_width_constant() {
    assert_eq!(HAMT_BIT_WIDTH, 5);
}
