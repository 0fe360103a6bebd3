//! Behaviour of the listener flavour of the bridge.

use workflow_wasm::callback::HostValue;
use workflow_wasm::listener::Callback;
use workflow_wasm::listener::Error;
use workflow_wasm::listener::Listener;

type Native = Box<dyn Fn(bool) -> bool>;

#[test]
fn fresh_listener_fails_with_closure_not_initialized() {
    let listener = Callback::<Native>::new();
    assert!(matches!(listener.closure(), Err(Error::ClosureNotInitialized)));
}

#[test]
fn with_closure_binds_immediately() {
    let listener = Callback::<Native>::with_closure(Box::new(|b| !b));
    let held = listener.closure().expect("the listener owns a closure");
    assert!((*held)(false));
    assert!(!(*held)(true));
}

#[test]
fn listener_set_closure_last_write_wins() {
    let mut listener = Callback::<Native>::new();
    listener.set_closure(Box::new(|b| b));
    listener.set_closure(Box::new(|_| true));
    let held = listener.closure().expect("the listener owns a closure");
    assert!((*held)(false), "the second closure answers");
}

#[test]
fn listener_identity_is_stable() {
    let mut listener = Callback::<Native>::new();
    let id = listener.get_id();
    listener.set_closure(Box::new(|b| b));
    assert_eq!(listener.get_id(), id);
}

#[test]
fn listener_host_value_follows_the_slot() {
    let mut listener = Callback::<Native>::new();
    assert!(matches!(listener.into_js(), HostValue::Null));
    listener.set_closure(Box::new(|b| b));
    match listener.into_js() {
        HostValue::Function(f) => assert!((*f)(true)),
        HostValue::Null => panic!("a bound listener has a bound host value"),
    }
}
