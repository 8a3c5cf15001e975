//! Failure signalling and the panic-containment boundary.
//!
//! A registered function fails in one of two ways: it returns its own typed
//! failure, or it panics.  A panic must never unwind across the C boundary
//! into the host's stack, so the trampoline runs the function behind a
//! containment boundary and observes only a [`ContainedOutcome`].

use vstd::prelude::*;
use crate::value::Handle;

verus! {

/// The typed failure a registered function signals through its fallible
/// return.  It carries no payload: the host observes only that no value
/// was produced.
#[derive(Clone, Copy, Debug, PartialEq, Eq, Structural)]
pub struct Throw;

/// What a registered function returns: a call-scoped handle to a typed
/// value on success, or a typed failure.
pub type JsResult<T> = Result<Handle<T>, Throw>;

/// What the containment boundary reports of one guarded call: the function
/// ran to completion with its own typed result, or a panic was caught.
/// A panic never escapes the boundary in any other form.
pub enum ContainedOutcome<T> {
    Completed(JsResult<T>),
    Panicked,
}

/// Panic containment for a call this crate has checked: verified code
/// cannot unwind, so the outcome is always `Completed` with the closure's
/// own result.  A foreign, unchecked function is guarded outside the
/// verified core instead, and its outcome handed in as a
/// [`ContainedOutcome`] — `Panicked` when an unwind was caught.
pub fn convert_panics<T, F: FnOnce() -> JsResult<T>>(f: F) -> (o: ContainedOutcome<T>)
    requires
        call_requires(f, ()),
    ensures
        o matches ContainedOutcome::Completed(res) && call_ensures(f, (), res),
{
    ContainedOutcome::Completed(f())
}

} // verus!
