use actor_shared::address::Address;
use actor_shared::error::ActorError;
use actor_shared::mock::MockRuntime;
use actor_shared::shared::METHOD_CONTROL_ADDRESSES;
use actor_shared::shared::decode_control_addresses;
use actor_shared::shared::request_control_addresses;

use fvm_ipld_encoding::BytesSer;
use fvm_ipld_encoding::to_vec;
use fvm_shared::address::Address as FvmAddress;

#[test]
fn control_addresses_pass_through() {
    let mut rt = MockRuntime::new();
    let payload = to_vec(
        &(
            BytesSer(&[0u8, 1]),
            BytesSer(&[0u8, 2]),
            vec![BytesSer(&[0u8, 3]), BytesSer(&[0u8, 4])],
        ),
    )
    .unwrap();
    rt.set_send_return(payload);
    let target = Address::Id(1000);
    let (owner, worker, controls) = request_control_addresses(&mut rt, &target).unwrap();
    assert_eq!(owner, Address::Id(1));
    assert_eq!(worker, Address::Id(2));
    assert_eq!(controls, vec![Address::Id(3), Address::Id(4)]);
    assert_eq!(rt.send_count(), 1);
    let log = rt.invocations();
    assert_eq!(log[0].to, target);
    assert_eq!(log[0].method, METHOD_CONTROL_ADDRESSES);
    assert!(log[0].params.is_empty());
    assert_eq!(log[0].value, 0u128);
}

#[test]
fn control_addresses_decode_the_native_encoding() {
    let mut rt = MockRuntime::new();
    let owner = FvmAddress::new_id(81);
    let worker = FvmAddress::new_id(82);
    let control = FvmAddress::new_secp256k1(&[7u8; 65]).unwrap();
    let payload = to_vec(&(owner, worker, vec![control])).unwrap();
    rt.set_send_return(payload);
    let target = Address::Id(500);
    let (o, w, c) = request_control_addresses(&mut rt, &target).unwrap();
    assert_eq!(o, Address::Id(81));
    assert_eq!(w, Address::Id(82));
    let control_bytes = control.to_bytes();
    assert_eq!(c, vec![Address::Key(control_bytes[0], control_bytes[1..].to_vec())]);
}

#[test]
fn undecodable_payload_is_a_decode_error() {
    let mut rt = MockRuntime::new();
    rt.set_send_return(vec![0xff, 0x00, 0x12]);
    let target = Address::Id(1000);
    match request_control_addresses(&mut rt, &target) {
        Err(ActorError::Decode { address, .. }) => {
            assert_eq!(address, target);
        },
        other => panic!("expected a decode error, got {:?}", other),
    }
    assert_eq!(rt.send_count(), 1);
    assert!(rt.invocations()[0].outcome.is_ok());
}

#[test]
fn decode_rejects_bad_address_bytes() {
    let payload = to_vec(
        &(BytesSer(&[]), BytesSer(&[0u8, 2]), Vec::<BytesSer>::new()),
    )
    .unwrap();
    let target = Address::Id(3);
    match decode_control_addresses(&target, &payload) {
        Err(ActorError::Decode { address, .. }) => {
            assert_eq!(address, target);
        },
        other => panic!("expected a decode error, got {:?}", other),
    }
}

#[test]
fn decode_rejects_bad_control_entry() {
    let payload = to_vec(
        &(
            BytesSer(&[0u8, 2]),
            BytesSer(&[0u8, 3]),
            vec![BytesSer(&[0u8, 4]), BytesSer(&[0u8])],
        ),
    )
    .unwrap();
    let target = Address::Id(3);
    match decode_control_addresses(&target, &payload) {
        Err(ActorError::Decode { address, .. }) => {
            assert_eq!(address, target);
        },
        other => panic!("expected a decode error, got {:?}", other),
    }
}

#[test]
fn failed_control_query_propagates_the_call_error() {
    let mut rt = MockRuntime::new();
    rt.fail_sends(42, "rejected".to_string());
    let target = Address::Id(77);
    match request_control_addresses(&mut rt, &target) {
        Err(ActorError::Call { address, error }) => {
            assert_eq!(address, target);
            assert_eq!(error.exit_code, 42);
            assert_eq!(error.message, "rejected");
        },
        other => panic!("expected a call error, got {:?}", other),
    }
    assert_eq!(rt.send_count(), 1);
}
