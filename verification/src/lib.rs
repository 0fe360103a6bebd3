//! Bridging of native closures to a foreign host runtime.
//!
//! A [`callback::Callback`] owns one native closure and exposes it as a
//! host-invocable value; a [`callback::CallbackMap`] is an identity-keyed
//! registry of such bridges; the [`timers`] module wraps host-issued timer
//! registrations in handles whose clearing is verified as a state machine.
//! The host runtime itself (the code that stores a host value and later
//! invokes it, and the scheduling primitives) is an external collaborator:
//! it is reached through caller-supplied primitives whose behaviour is
//! described by `call_requires`/`call_ensures`.

use std::sync::Arc;
use vstd::prelude::*;

pub mod callback;
pub mod listener;
pub mod prelude;
pub mod timers;

verus! {

/// Relies on `<Arc<T> as Clone>::clone`: the clone shares the allocation of
/// the original, so both carry the same value.
#[verifier::external_body]
pub(crate) fn arc_clone<T>(v: &Arc<T>) -> (r: Arc<T>)
    ensures
        r == *v,
{
    v.clone()
}

} // verus!
