//! Scoped handles for host-issued timer registrations.
//!
//! [`set_interval`] and [`set_timeout`] ask the host's scheduling primitive
//! for a raw timer id and wrap it in a handle. A handle is `Active` while it
//! carries a raw id and `Cleared` once the id has been taken out:
//! [`clear_interval`] and [`clear_timeout`] cancel the registration through
//! the handle's own cancellation primitive and empty the handle, and fail —
//! with [`Error::InvalidIntervalHandle`] or [`Error::InvalidTimeoutHandle`]
//! — exactly when the handle is already empty. The drop path,
//! [`IntervalHandle::clear_on_drop`] and [`TimeoutHandle::clear_on_drop`],
//! also cancels a pending registration but never errors: an already empty
//! handle is a no-op, and a host failure is handed back only as a
//! diagnostic for the caller to report.
//!
//! The host primitives are caller-supplied closures (the host-binding layer
//! supplies ones that reach the real scheduler; a test supplies doubles):
//! a scheduling primitive takes the period or delay and answers with the
//! raw id or the host's error text, and a cancellation primitive takes a
//! raw id and answers with `Ok` or the host's error text.

use vstd::prelude::*;

verus! {

/// Errors produced by the timer handles.
#[derive(Debug)]
pub enum Error {
    /// An opaque error handed back by the host runtime, carried as text.
    Host(String),
    /// An explicit clear was asked of an interval handle that is empty:
    /// never scheduled, or already cleared.
    InvalidIntervalHandle,
    /// An explicit clear was asked of a timeout handle that is empty:
    /// never scheduled, or already cleared.
    InvalidTimeoutHandle,
}

/// A host-issued interval registration whose cancellation is tied to this
/// handle: it carries the raw id and the cancellation primitive that
/// releases it.
pub struct IntervalHandle<C> {
    raw: Option<u32>,
    cancel: C,
}

impl<C: Fn(u32) -> Result<(), String>> IntervalHandle<C> {
    /// The raw host id of the active registration, if any.
    pub closed spec fn raw_spec(&self) -> Option<u32> {
        self.raw
    }

    /// The cancellation primitive the handle was built with.
    pub closed spec fn cancel_spec(&self) -> C {
        self.cancel
    }

    /// Well-formedness: the cancellation primitive accepts every raw id.
    pub closed spec fn wf(&self) -> bool {
        forall|x: u32| call_requires(self.cancel, (x,))
    }

    /// A handle in the unscheduled state: nothing to cancel yet.
    pub fn new(cancel: C) -> (handle: Self)
        requires
            forall|x: u32| call_requires(cancel, (x,)),
        ensures
            handle.wf(),
            handle.raw_spec() == None::<u32>,
            handle.cancel_spec() == cancel,
    {
        IntervalHandle { raw: None, cancel }
    }

    /// Whether the handle still carries an active registration.
    pub fn is_active(&self) -> (active: bool)
        ensures
            active == (self.raw_spec() matches Some(_)),
    {
        match &self.raw {
            Some(_) => true,
            None => false,
        }
    }

    /// The implicit clearing that object destruction performs: cancel a
    /// pending registration, tolerate an already empty handle as a no-op,
    /// and never error — a host failure is handed back only as a diagnostic
    /// text for the caller to report.
    pub fn clear_on_drop(&mut self) -> (diagnostic: Option<String>)
        requires
            old(self).wf(),
        ensures
            final(self).wf(),
            final(self).raw_spec() == None::<u32>,
            final(self).cancel_spec() == old(self).cancel_spec(),
            match old(self).raw_spec() {
                None => diagnostic == None::<String>,
                Some(x) => match diagnostic {
                    None => call_ensures(old(self).cancel_spec(), (x,), Ok::<(), String>(())),
                    Some(s) => call_ensures(old(self).cancel_spec(), (x,), Err::<(), String>(s)),
                },
            },
    {
        let pending = self.raw.take();
        match pending {
            None => None,
            Some(x) => {
                let outcome = (self.cancel)(x);
                proof {
                    match outcome {
                        Ok(u) => {
                            assert(u == ());
                            assert(outcome == Ok::<(), String>(()));
                        },
                        Err(_) => {},
                    }
                }
                match outcome {
                    Ok(()) => None,
                    Err(s) => Some(s),
                }
            },
        }
    }
}

/// A host-issued one-shot registration whose cancellation is tied to this
/// handle, as [`IntervalHandle`] is for repeating registrations.
pub struct TimeoutHandle<C> {
    raw: Option<u32>,
    cancel: C,
}

impl<C: Fn(u32) -> Result<(), String>> TimeoutHandle<C> {
    /// The raw host id of the active registration, if any.
    pub closed spec fn raw_spec(&self) -> Option<u32> {
        self.raw
    }

    /// The cancellation primitive the handle was built with.
    pub closed spec fn cancel_spec(&self) -> C {
        self.cancel
    }

    /// Well-formedness: the cancellation primitive accepts every raw id.
    pub closed spec fn wf(&self) -> bool {
        forall|x: u32| call_requires(self.cancel, (x,))
    }

    /// A handle in the unscheduled state: nothing to cancel yet.
    pub fn new(cancel: C) -> (handle: Self)
        requires
            forall|x: u32| call_requires(cancel, (x,)),
        ensures
            handle.wf(),
            handle.raw_spec() == None::<u32>,
            handle.cancel_spec() == cancel,
    {
        TimeoutHandle { raw: None, cancel }
    }

    /// Whether the handle still carries an active registration.
    pub fn is_active(&self) -> (active: bool)
        ensures
            active == (self.raw_spec() matches Some(_)),
    {
        match &self.raw {
            Some(_) => true,
            None => false,
        }
    }

    /// The implicit clearing that object destruction performs: cancel a
    /// pending registration, tolerate an already empty handle as a no-op,
    /// and never error — a host failure is handed back only as a diagnostic
    /// text for the caller to report.
    pub fn clear_on_drop(&mut self) -> (diagnostic: Option<String>)
        requires
            old(self).wf(),
        ensures
            final(self).wf(),
            final(self).raw_spec() == None::<u32>,
            final(self).cancel_spec() == old(self).cancel_spec(),
            match old(self).raw_spec() {
                None => diagnostic == None::<String>,
                Some(x) => match diagnostic {
                    None => call_ensures(old(self).cancel_spec(), (x,), Ok::<(), String>(())),
                    Some(s) => call_ensures(old(self).cancel_spec(), (x,), Err::<(), String>(s)),
                },
            },
    {
        let pending = self.raw.take();
        match pending {
            None => None,
            Some(x) => {
                let outcome = (self.cancel)(x);
                proof {
                    match outcome {
                        Ok(u) => {
                            assert(u == ());
                            assert(outcome == Ok::<(), String>(()));
                        },
                        Err(_) => {},
                    }
                }
                match outcome {
                    Ok(()) => None,
                    Err(s) => Some(s),
                }
            },
        }
    }
}

/// Ask the host to register a repeating timer with period `timeout` and
/// wrap the raw id it issues. `register` is the host's register-repeating
/// primitive with the host value already bound in; `cancel` is kept in the
/// handle for the later release. Succeeds exactly when the host does.
pub fn set_interval<R: FnOnce(u32) -> Result<u32, String>, C: Fn(u32) -> Result<(), String>>(
    register: R,
    cancel: C,
    timeout: u32,
) -> (result: Result<IntervalHandle<C>, Error>)
    requires
        call_requires(register, (timeout,)),
        forall|x: u32| call_requires(cancel, (x,)),
    ensures
        match result {
            Ok(handle) => {
                &&& handle.wf()
                &&& handle.cancel_spec() == cancel
                &&& handle.raw_spec() matches Some(x) && call_ensures(
                    register,
                    (timeout,),
                    Ok::<u32, String>(x),
                )
            },
            Err(e) => e matches Error::Host(s) && call_ensures(
                register,
                (timeout,),
                Err::<u32, String>(s),
            ),
        },
{
    match register(timeout) {
        Ok(raw) => Ok(IntervalHandle { raw: Some(raw), cancel }),
        Err(s) => Err(Error::Host(s)),
    }
}

/// Cancel the registration carried by `handle` through the handle's own
/// cancellation primitive and empty the handle. Fails with
/// [`Error::InvalidIntervalHandle`] exactly when the handle is already
/// empty; a host failure is handed back as [`Error::Host`] and leaves the
/// handle active, as the registration was not released.
pub fn clear_interval<C: Fn(u32) -> Result<(), String>>(handle: &mut IntervalHandle<C>) -> (result:
    Result<(), Error>)
    requires
        old(handle).wf(),
    ensures
        final(handle).wf(),
        final(handle).cancel_spec() == old(handle).cancel_spec(),
        match old(handle).raw_spec() {
            None => {
                &&& result == Err::<(), Error>(Error::InvalidIntervalHandle)
                &&& final(handle).raw_spec() == None::<u32>
            },
            Some(x) => match result {
                Ok(()) => call_ensures(old(handle).cancel_spec(), (x,), Ok::<(), String>(()))
                    && final(handle).raw_spec() == None::<u32>,
                Err(e) => e matches Error::Host(s) && call_ensures(
                    old(handle).cancel_spec(),
                    (x,),
                    Err::<(), String>(s),
                ) && final(handle).raw_spec() == Some(x),
            },
        },
{
    match &handle.raw {
        None => Err(Error::InvalidIntervalHandle),
        Some(x) => {
            let x = *x;
            let outcome = (handle.cancel)(x);
            proof {
                match outcome {
                    Ok(u) => {
                        assert(u == ());
                        assert(outcome == Ok::<(), String>(()));
                    },
                    Err(_) => {},
                }
            }
            match outcome {
                Ok(()) => {
                    handle.raw = None;
                    Ok(())
                },
                Err(s) => Err(Error::Host(s)),
            }
        },
    }
}

/// Ask the host to register a one-shot timer with delay `timeout` and wrap
/// the raw id it issues, as [`set_interval`] does for repeating timers.
pub fn set_timeout<R: FnOnce(u32) -> Result<u32, String>, C: Fn(u32) -> Result<(), String>>(
    register: R,
    cancel: C,
    timeout: u32,
) -> (result: Result<TimeoutHandle<C>, Error>)
    requires
        call_requires(register, (timeout,)),
        forall|x: u32| call_requires(cancel, (x,)),
    ensures
        match result {
            Ok(handle) => {
                &&& handle.wf()
                &&& handle.cancel_spec() == cancel
                &&& handle.raw_spec() matches Some(x) && call_ensures(
                    register,
                    (timeout,),
                    Ok::<u32, String>(x),
                )
            },
            Err(e) => e matches Error::Host(s) && call_ensures(
                register,
                (timeout,),
                Err::<u32, String>(s),
            ),
        },
{
    match register(timeout) {
        Ok(raw) => Ok(TimeoutHandle { raw: Some(raw), cancel }),
        Err(s) => Err(Error::Host(s)),
    }
}

/// Cancel the registration carried by `handle`, as [`clear_interval`] does,
/// failing with [`Error::InvalidTimeoutHandle`] exactly when the handle is
/// already empty.
pub fn clear_timeout<C: Fn(u32) -> Result<(), String>>(handle: &mut TimeoutHandle<C>) -> (result:
    Result<(), Error>)
    requires
        old(handle).wf(),
    ensures
        final(handle).wf(),
        final(handle).cancel_spec() == old(handle).cancel_spec(),
        match old(handle).raw_spec() {
            None => {
                &&& result == Err::<(), Error>(Error::InvalidTimeoutHandle)
                &&& final(handle).raw_spec() == None::<u32>
            },
            Some(x) => match result {
                Ok(()) => call_ensures(old(handle).cancel_spec(), (x,), Ok::<(), String>(()))
                    && final(handle).raw_spec() == None::<u32>,
                Err(e) => e matches Error::Host(s) && call_ensures(
                    old(handle).cancel_spec(),
                    (x,),
                    Err::<(), String>(s),
                ) && final(handle).raw_spec() == Some(x),
            },
        },
{
    match &handle.raw {
        None => Err(Error::InvalidTimeoutHandle),
        Some(x) => {
            let x = *x;
            let outcome = (handle.cancel)(x);
            proof {
                match outcome {
                    Ok(u) => {
                        assert(u == ());
                        assert(outcome == Ok::<(), String>(()));
                    },
                    Err(_) => {},
                }
            }
            match outcome {
                Ok(()) => {
                    handle.raw = None;
                    Ok(())
                },
                Err(s) => Err(Error::Host(s)),
            }
        },
    }
}

} // verus!

