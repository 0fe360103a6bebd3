//! Behaviour of the closure-ownership bridge.

use workflow_wasm::callback::AsCallback;
use workflow_wasm::callback::Callback;
use workflow_wasm::callback::Error;
use workflow_wasm::callback::HostValue;

type Native = Box<dyn Fn(u64) -> u64>;

#[test]
fn created_bridge_hands_back_the_original_closure() {
    let bridge = Callback::<Native>::create(Box::new(|x| x + 1));
    let held = bridge.closure().expect("a created bridge owns a closure");
    for input in [0u64, 5, 41] {
        assert_eq!((*held)(input), input + 1);
    }
}

#[test]
fn fresh_bridge_fails_with_closure_not_initialized() {
    let bridge = Callback::<Native>::default();
    match bridge.closure() {
        Err(Error::ClosureNotInitialized) => {}
        other => panic!("expected ClosureNotInitialized, got {:?}", other.map(|_| ())),
    }
}

#[test]
fn set_closure_last_write_wins() {
    let mut bridge = Callback::<Native>::create(Box::new(|x| x + 1));
    bridge.set_closure(Box::new(|x| x * 3));
    let held = bridge.closure().expect("closure is set");
    assert_eq!((*held)(5), 15);
    bridge.set_closure(Box::new(|x| x * 2));
    let held = bridge.closure().expect("closure is set");
    assert_eq!((*held)(5), 10);
}

#[test]
fn invoke_through_host_value_then_reset() {
    // Create with f(x) = x + 1, invoke through the host-invocable value
    // with 5 and see 6; reset with g(x) = x * 2 and see 10.
    let mut bridge = Callback::<Native>::create(Box::new(|x| x + 1));
    match bridge.into_js() {
        HostValue::Function(f) => assert_eq!((*f)(5), 6),
        HostValue::Null => panic!("a created bridge has a bound host value"),
    }
    bridge.set_closure(Box::new(|x| x * 2));
    match bridge.into_js() {
        HostValue::Function(g) => assert_eq!((*g)(5), 10),
        HostValue::Null => panic!("a bound bridge has a bound host value"),
    }
}

#[test]
fn host_value_outlives_a_reset() {
    // The host value targets one specific adapter: a value obtained before
    // a reset keeps the old behaviour, as a host runtime that retained the
    // reference would observe.
    let mut bridge = Callback::<Native>::create(Box::new(|x| x + 1));
    let retained = bridge.into_js();
    bridge.set_closure(Box::new(|x| x * 2));
    match retained {
        HostValue::Function(f) => assert_eq!((*f)(5), 6),
        HostValue::Null => panic!("the retained host value was bound"),
    }
}

#[test]
fn unset_bridge_host_value_is_null() {
    let bridge = Callback::<Native>::default();
    assert!(matches!(bridge.into_js(), HostValue::Null));
}

#[test]
fn identity_survives_reset() {
    let mut bridge = Callback::<Native>::create(Box::new(|x| x));
    let id = bridge.get_id();
    bridge.set_closure(Box::new(|x| x + 7));
    assert_eq!(bridge.get_id(), id);
    let held = bridge.closure().expect("the bridge owns a closure");
    assert_eq!((*held)(1), 8);
}

#[test]
fn message_error_from_string() {
    let e = Error::from(String::from("boom"));
    assert!(matches!(e, Error::Message(s) if s == "boom"));
}
