use actor_shared::address::Address;
use actor_shared::error::ActorError;
use actor_shared::mock::MockRuntime;
use actor_shared::runtime::METHOD_SEND;
use actor_shared::shared::resolve_to_id;
use actor_shared::shared::resolve_to_id_twice;

#[test]
fn resolves_existing_mapping_without_invocation() {
    let mut rt = MockRuntime::new();
    let a = Address::Key(1, vec![1, 2, 3]);
    rt.map_address(a.clone(), 55);
    let r = resolve_to_id(&mut rt, &a);
    assert_eq!(r.unwrap(), Address::Id(55));
    assert_eq!(rt.send_count(), 0);
}

#[test]
fn resolving_id_address_is_identity() {
    let mut rt = MockRuntime::new();
    let r = resolve_to_id(&mut rt, &Address::Id(42));
    assert_eq!(r.unwrap(), Address::Id(42));
    assert_eq!(rt.send_count(), 0);
}

#[test]
fn resolves_unmapped_address_by_zero_value_send() {
    let mut rt = MockRuntime::new();
    rt.set_next_id(7);
    let a = Address::Key(1, vec![9, 9]);
    let r = resolve_to_id(&mut rt, &a);
    assert_eq!(r.unwrap(), Address::Id(7));
    assert_eq!(rt.send_count(), 1);
    let log = rt.invocations();
    assert_eq!(log[0].to, a);
    assert_eq!(log[0].method, METHOD_SEND);
    assert!(log[0].params.is_empty());
    assert_eq!(log[0].value, 0u128);
    assert!(log[0].outcome.is_ok());
}

#[test]
fn failed_send_is_wrapped_with_address() {
    let mut rt = MockRuntime::new();
    rt.fail_sends(38, "no funds".to_string());
    let a = Address::Key(1, vec![4]);
    match resolve_to_id(&mut rt, &a) {
        Err(ActorError::Call { address, error }) => {
            assert_eq!(address, a);
            assert_eq!(error.exit_code, 38);
            assert_eq!(error.message, "no funds");
        },
        other => panic!("expected a wrapped call error, got {:?}", other),
    }
    assert_eq!(rt.send_count(), 1);
}

#[test]
fn missing_mapping_after_successful_send_is_inconsistency() {
    let mut rt = MockRuntime::new();
    rt.set_assign_on_send(false);
    let a = Address::Key(1, vec![5]);
    match resolve_to_id(&mut rt, &a) {
        Err(ActorError::InconsistentMapping { address }) => {
            assert_eq!(address, a);
        },
        other => panic!("expected the inconsistency error, got {:?}", other),
    }
    assert_eq!(rt.send_count(), 1);
    assert_eq!(rt.invocations()[0].method, METHOD_SEND);
}

#[test]
fn failed_lookup_is_a_store_error() {
    let mut rt = MockRuntime::new();
    rt.fail_lookups(true);
    let a = Address::Key(1, vec![6]);
    match resolve_to_id(&mut rt, &a) {
        Err(ActorError::Store { address, .. }) => {
            assert_eq!(address, a);
        },
        other => panic!("expected a store error, got {:?}", other),
    }
    assert_eq!(rt.send_count(), 0);
}

#[test]
fn resolution_is_idempotent() {
    let mut rt = MockRuntime::new();
    rt.set_next_id(7);
    let a = Address::Key(1, vec![8, 8]);
    let first = resolve_to_id(&mut rt, &a).unwrap();
    let after_first = rt.send_count();
    let second = resolve_to_id(&mut rt, &a).unwrap();
    assert_eq!(first, Address::Id(7));
    assert_eq!(second, first);
    assert_eq!(rt.send_count(), after_first);
}

#[test]
fn resolving_twice_sends_once() {
    let mut rt = MockRuntime::new();
    rt.set_next_id(9);
    let a = Address::Key(1, vec![3, 1]);
    let (first, second) = resolve_to_id_twice(&mut rt, &a);
    assert_eq!(first.unwrap(), Address::Id(9));
    assert_eq!(second.unwrap(), Address::Id(9));
    assert_eq!(rt.send_count(), 1);
}

#[test]
fn mappings_are_never_reassigned() {
    let mut rt = MockRuntime::new();
    let a = Address::Key(1, vec![2, 4]);
    rt.map_address(a.clone(), 11);
    rt.map_address(a.clone(), 99);
    assert_eq!(resolve_to_id(&mut rt, &a).unwrap(), Address::Id(11));
}
