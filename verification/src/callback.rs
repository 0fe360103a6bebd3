//! The closure-ownership bridge.
//!
//! A [`Callback`] owns one native closure, names it with a [`CallbackId`],
//! and exposes it to the host runtime as a [`HostValue`]. A [`CallbackMap`]
//! is the identity-keyed registry that holds many bridges for later lookup
//! and teardown.

use std::collections::HashMap;
use std::sync::Arc;
use vstd::prelude::*;

verus! {

broadcast use vstd::std_specs::hash::group_hash_axioms;

/// `u64`-based identifier naming one callback bridge.
pub type CallbackId = u64;

/// Relies on `workflow_core::id::Id::new`: a freshly drawn random 64-bit
/// identifier, handed back as its raw bytes. Nothing is promised of the
/// drawn value.
#[verifier::external_body]
pub(crate) fn fresh_callback_id() -> CallbackId {
    u64::from_le_bytes(workflow_core::id::Id::new().to_bytes())
}

/// Errors produced by the closure bridge and the registry.
#[derive(Debug)]
pub enum Error {
    /// A custom error message.
    Message(String),
    /// An opaque error handed back by the host runtime, carried as text.
    Host(String),
    /// A lock around shared state was poisoned by an earlier panic. The
    /// bridge serializes access through `&mut`, so none of the operations in
    /// this module produce this variant; it stays in the taxonomy so that a
    /// host-side lock failure has a place to land.
    LockError(String),
    /// A closure was requested from a bridge that has never had one set.
    ClosureNotInitialized,
}

impl From<String> for Error {
    /// Wrap a plain message as [`Error::Message`].
    fn from(message: String) -> (e: Self) {
        Error::Message(message)
    }
}

impl vstd::std_specs::convert::FromSpecImpl<String> for Error {
    open spec fn obeys_from_spec() -> bool {
        true
    }

    open spec fn from_spec(message: String) -> Self {
        Error::Message(message)
    }
}

/// The value the host runtime holds for a bridge: the host's null value
/// while no closure is bound, or a shared reference to one specific closure
/// adapter. A reference obtained before a later [`Callback::set_closure`]
/// keeps targeting the adapter it was derived from, not the bridge's slot.
pub enum HostValue<F> {
    Null,
    Function(Arc<F>),
}

impl<F> HostValue<F> {
    /// The closure adapter this host value targets, if any.
    pub open spec fn target(&self) -> Option<F> {
        match *self {
            HostValue::Null => None,
            HostValue::Function(f) => Some(*f),
        }
    }
}

/// Capability of carrying a [`CallbackId`]: what the registry asks of its
/// entries.
pub trait AsCallback {
    /// The identity the entry was constructed with.
    spec fn id_spec(&self) -> CallbackId;

    /// Hand out the entry's identity.
    fn get_id(&self) -> (id: CallbackId)
        ensures
            id == self.id_spec(),
    ;
}

/// A bridge that owns one native closure and exposes it to the host runtime.
///
/// The closure slot starts empty, is filled by [`Callback::set_closure`]
/// (possibly repeatedly: the last write wins), and is read by
/// [`Callback::closure`]. The identity never changes after construction.
///
/// A bridge has a single owner and every access goes through that owner:
/// all holders of one bridge must observe the same live closure, and a
/// by-copy `Clone` would break that rule — a replacement through one copy
/// would be invisible through the other — so none is offered. Holders that
/// need shared access share the whole bridge (for instance behind a
/// reference-counted pointer, with replacement serialized by its owner), or
/// hand out the closure and the host value, which are shared adapters.
pub struct Callback<F> {
    id: CallbackId,
    closure: Option<Arc<F>>,
    host_value: HostValue<F>,
}

impl<F> Callback<F> {
    /// The closure currently held by the bridge's slot.
    pub closed spec fn closure_spec(&self) -> Option<F> {
        match self.closure {
            Some(c) => Some(*c),
            None => None,
        }
    }

    /// The closure targeted by the bridge's current host value.
    pub closed spec fn host_target(&self) -> Option<F> {
        self.host_value.target()
    }

    /// Well-formedness: the host value is bound exactly when the slot is
    /// filled, and then both expose the same closure.
    pub open spec fn wf(&self) -> bool {
        self.host_target() == self.closure_spec()
    }

    /// Construct a bridge that already owns `closure`, under a fresh
    /// identity.
    pub fn create(closure: F) -> (bridge: Self)
        ensures
            bridge.wf(),
            bridge.closure_spec() == Some(closure),
    {
        let mut bridge = Self::default();
        bridge.set_closure(closure);
        bridge
    }

    /// Construct a bridge that owns `closure`; the conventional constructor
    /// for single-argument closures.
    pub fn new(closure: F) -> (bridge: Self)
        ensures
            bridge.wf(),
            bridge.closure_spec() == Some(closure),
    {
        Self::create(closure)
    }

    /// Replace the owned closure and regenerate the host value; the last
    /// write wins. Host values obtained earlier keep targeting the adapter
    /// they were derived from.
    pub fn set_closure(&mut self, closure: F)
        ensures
            final(self).wf(),
            final(self).id_spec() == old(self).id_spec(),
            final(self).closure_spec() == Some(closure),
    {
        let adapter = Arc::new(closure);
        self.host_value = HostValue::Function(crate::arc_clone(&adapter));
        self.closure = Some(adapter);
    }

    /// The host-invocable value of this bridge, as the host runtime would
    /// hold it. It never fails: an unbound bridge yields the null value.
    pub fn into_js(&self) -> (value: HostValue<F>)
        ensures
            value.target() == self.host_target(),
    {
        match &self.host_value {
            HostValue::Null => HostValue::Null,
            HostValue::Function(f) => HostValue::Function(crate::arc_clone(f)),
        }
    }

    /// A shared handle to the currently owned closure. Fails with
    /// [`Error::ClosureNotInitialized`], and with nothing else, exactly when
    /// no closure has ever been set.
    pub fn closure(&self) -> (result: Result<Arc<F>, Error>)
        ensures
            match self.closure_spec() {
                Some(c) => result matches Ok(a) && *a == c,
                None => result == Err::<Arc<F>, Error>(Error::ClosureNotInitialized),
            },
    {
        match &self.closure {
            Some(c) => Ok(crate::arc_clone(c)),
            None => Err(Error::ClosureNotInitialized),
        }
    }
}

impl<F> AsCallback for Callback<F> {
    closed spec fn id_spec(&self) -> CallbackId {
        self.id
    }

    fn get_id(&self) -> (id: CallbackId) {
        self.id
    }
}

impl<F> Default for Callback<F> {
    /// A bridge with a fresh identity and no closure bound.
    fn default() -> (bridge: Self)
        ensures
            bridge.wf(),
            bridge.closure_spec() == None::<F>,
    {
        Callback { id: fresh_callback_id(), closure: None, host_value: HostValue::Null }
    }
}

/// Law: on a well-formed bridge the host-side value and the native accessor
/// expose one and the same closure, so an invocation driven by the host
/// admits exactly the outcomes of invoking the owned closure directly.
pub proof fn lemma_host_and_native_agree<F>(bridge: Callback<F>)
    requires
        bridge.wf(),
    ensures
        bridge.host_target() == bridge.closure_spec(),
{
}

/// Law: whatever closure a bridge holding `f` hands out — through the
/// native accessor or through the host value — admits exactly the
/// invocation outcomes of `f` itself: invoking the bridge's closure with an
/// input yields what invoking `f` directly with that input yields.
pub proof fn lemma_bridge_invocation_agrees<F: Fn(A) -> R, A, R>(
    bridge: Callback<F>,
    f: F,
    arg: A,
    outcome: R,
)
    requires
        bridge.wf(),
        bridge.closure_spec() == Some(f),
    ensures
        bridge.host_target() == Some(f),
        forall|g: F|
            bridge.closure_spec() == Some(g) ==> (call_ensures(g, (arg,), outcome)
                <==> call_ensures(f, (arg,), outcome)),
{
}

/// The identity-keyed registry of bridges.
///
/// Keys are unique; inserting under an identity already present silently
/// overwrites the old entry (last write wins). Access is serialized through
/// `&mut`, so no operation can fail on a poisoned lock: every result is
/// `Ok`. As with the bridge, the registry has a single owner and offers no
/// by-copy `Clone`: holders share the registry itself, not copies of it.
/// One registry holds entries of one [`AsCallback`] type; to mix bridges of
/// different closure signatures in a single registry, the caller supplies
/// its own erasing entry type (a boxed capability object) as `C`.
pub struct CallbackMap<C> {
    inner: HashMap<CallbackId, C>,
}

impl<C> View for CallbackMap<C> {
    type V = Map<CallbackId, C>;

    closed spec fn view(&self) -> Map<CallbackId, C> {
        self.inner@
    }
}

impl<C: AsCallback> CallbackMap<C> {
    /// An empty registry.
    pub fn new() -> (map: Self)
        ensures
            map@ == Map::<CallbackId, C>::empty(),
    {
        CallbackMap { inner: HashMap::new() }
    }

    /// Read access to the underlying mapping, for bulk iteration.
    pub fn inner(&self) -> (map: &HashMap<CallbackId, C>)
        ensures
            map@ == self@,
    {
        &self.inner
    }

    /// Store `callback` under its own identity, overwriting a previous entry
    /// under the same identity.
    pub fn insert(&mut self, callback: C) -> (result: Result<(), Error>)
        ensures
            final(self)@ == old(self)@.insert(callback.id_spec(), callback),
            result == Ok::<(), Error>(()),
    {
        let id = callback.get_id();
        self.inner.insert(id, callback);
        Ok(())
    }

    /// Remove and return the entry under `id`; an absent identity is not an
    /// error, it yields `Ok(None)`.
    pub fn remove(&mut self, id: &CallbackId) -> (result: Result<Option<C>, Error>)
        ensures
            final(self)@ == old(self)@.remove(*id),
            old(self)@.contains_key(*id) ==> (result matches Ok(entry) && entry matches Some(c)
                && c == old(self)@[*id]),
            !old(self)@.contains_key(*id) ==> result == Ok::<Option<C>, Error>(None),
    {
        Ok(self.inner.remove(id))
    }
}

/// Law: an entry inserted into a registry is retrievable and removable under
/// its own identity; removing it restores the registry as if only that
/// identity had been taken out, every other entry staying untouched; and
/// removing an identity that is absent leaves the registry as it was.
pub proof fn lemma_registry_round_trip<C: AsCallback>(m: Map<CallbackId, C>, c: C)
    ensures
        m.insert(c.id_spec(), c).contains_key(c.id_spec()),
        m.insert(c.id_spec(), c)[c.id_spec()] == c,
        m.insert(c.id_spec(), c).remove(c.id_spec()) == m.remove(c.id_spec()),
        forall|k: CallbackId|
            k != c.id_spec() ==> (m.insert(c.id_spec(), c).contains_key(k) <==> m.contains_key(k)),
        forall|k: CallbackId|
            k != c.id_spec() && m.contains_key(k) ==> m.insert(c.id_spec(), c)[k] == m[k],
        !m.contains_key(c.id_spec()) ==> m.remove(c.id_spec()) == m,
{
    assert(m.insert(c.id_spec(), c).remove(c.id_spec()) =~= m.remove(c.id_spec()));
    if !m.contains_key(c.id_spec()) {
        assert(m.remove(c.id_spec()) =~= m);
    }
}

} // verus!
