//! The event-listener flavour of the closure bridge.
//!
//! This module's [`Callback`] is the older, listener-oriented variant of
//! [`crate::callback::Callback`]: the same closure-ownership bridge, reached
//! through the [`Listener`] capability and starting from an explicitly
//! empty bridge ([`Callback::new`] binds no closure).

use std::sync::Arc;
use vstd::prelude::*;

use crate::callback::fresh_callback_id;
use crate::callback::CallbackId;
use crate::callback::HostValue;

verus! {

/// `u64`-based identifier naming one listener (alias of
/// [`crate::callback::CallbackId`]).
pub type Id = CallbackId;

/// Errors produced by the listener bridge.
#[derive(Debug)]
pub enum Error {
    /// A custom error message.
    Message(String),
    /// An opaque error handed back by the host runtime, carried as text.
    Host(String),
    /// A lock around shared state was poisoned by an earlier panic. The
    /// bridge serializes access through `&mut`, so none of the operations in
    /// this module produce this variant.
    LockError(String),
    /// A closure was requested from a bridge that has never had one set.
    ClosureNotInitialized,
}

impl From<String> for Error {
    /// Wrap a plain message as [`Error::Message`].
    fn from(message: String) -> (e: Self) {
        Error::Message(message)
    }
}

impl vstd::std_specs::convert::FromSpecImpl<String> for Error {
    open spec fn obeys_from_spec() -> bool {
        true
    }

    open spec fn from_spec(message: String) -> Self {
        Error::Message(message)
    }
}

/// Capability of carrying an [`Id`]: what callers ask of a listener.
pub trait Listener {
    /// The identity the listener was constructed with.
    spec fn id_spec(&self) -> Id;

    /// Hand out the listener's identity.
    fn get_id(&self) -> (id: Id)
        ensures
            id == self.id_spec(),
    ;
}

/// A listener bridge that owns one native closure and exposes it to the
/// host runtime. Constructed empty, bound by [`Callback::set_closure`].
///
/// As with [`crate::callback::Callback`], a listener has a single owner:
/// all holders of one listener must observe the same live closure, so no
/// by-copy `Clone` is offered; share the whole listener, or hand out the
/// closure and the host value, which are shared adapters.
pub struct Callback<F> {
    id: Id,
    closure: Option<Arc<F>>,
    host_value: HostValue<F>,
}

impl<F> Callback<F> {
    /// The closure currently held by the bridge's slot.
    pub closed spec fn closure_spec(&self) -> Option<F> {
        match self.closure {
            Some(c) => Some(*c),
            None => None,
        }
    }

    /// The closure targeted by the bridge's current host value.
    pub closed spec fn host_target(&self) -> Option<F> {
        self.host_value.target()
    }

    /// Well-formedness: the host value is bound exactly when the slot is
    /// filled, and then both expose the same closure.
    pub open spec fn wf(&self) -> bool {
        self.host_target() == self.closure_spec()
    }

    /// A listener with a fresh identity and no closure bound.
    pub fn new() -> (listener: Self)
        ensures
            listener.wf(),
            listener.closure_spec() == None::<F>,
    {
        Callback { id: fresh_callback_id(), closure: None, host_value: HostValue::Null }
    }

    /// A listener that already owns `closure`, under a fresh identity.
    pub fn with_closure(closure: F) -> (listener: Self)
        ensures
            listener.wf(),
            listener.closure_spec() == Some(closure),
    {
        let mut listener = Self::new();
        listener.set_closure(closure);
        listener
    }

    /// Replace the owned closure and regenerate the host value; the last
    /// write wins. Host values obtained earlier keep targeting the adapter
    /// they were derived from.
    pub fn set_closure(&mut self, closure: F)
        ensures
            final(self).wf(),
            final(self).id_spec() == old(self).id_spec(),
            final(self).closure_spec() == Some(closure),
    {
        let adapter = Arc::new(closure);
        self.host_value = HostValue::Function(crate::arc_clone(&adapter));
        self.closure = Some(adapter);
    }

    /// The host-invocable value of this listener, as the host runtime would
    /// hold it. It never fails: an unbound listener yields the null value.
    pub fn into_js(&self) -> (value: HostValue<F>)
        ensures
            value.target() == self.host_target(),
    {
        match &self.host_value {
            HostValue::Null => HostValue::Null,
            HostValue::Function(f) => HostValue::Function(crate::arc_clone(f)),
        }
    }

    /// A shared handle to the currently owned closure. Fails with
    /// [`Error::ClosureNotInitialized`], and with nothing else, exactly when
    /// no closure has ever been set.
    pub fn closure(&self) -> (result: Result<Arc<F>, Error>)
        ensures
            match self.closure_spec() {
                Some(c) => result matches Ok(a) && *a == c,
                None => result == Err::<Arc<F>, Error>(Error::ClosureNotInitialized),
            },
    {
        match &self.closure {
            Some(c) => Ok(crate::arc_clone(c)),
            None => Err(Error::ClosureNotInitialized),
        }
    }
}

impl<F> Listener for Callback<F> {
    closed spec fn id_spec(&self) -> Id {
        self.id
    }

    fn get_id(&self) -> (id: Id) {
        self.id
    }
}

} // verus!
