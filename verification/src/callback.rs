//! Registered functions and their erased, host-stored form.
//!
//! At registration time a strongly-typed function is erased into an untyped
//! slot owned by the host; at call time the trampoline reinterprets the slot
//! as the original type.  The host performs no type check, so correctness
//! rests on the one-to-one pairing between a trampoline instantiation and
//! the function type it was built for.  Here that pairing is a precondition
//! of the recovery step, discharged statically instead of at runtime.

use vstd::prelude::*;
use crate::value::ValueInternal;

verus! {

/// The untyped form in which a registered function sits in a host data
/// slot: its registration identity, keyed with the tag of the value type
/// it was registered for.
#[derive(Clone, Copy, Debug, PartialEq, Eq, Structural)]
pub struct ErasedCallback {
    pub callback_id: u64,
    pub type_tag: u64,
}

/// A registered function of one exact type: the typed counterpart of an
/// erased slot entry.  The type parameter is the value type the function
/// returns on success; an instantiation of this struct stands for the
/// `fn(FunctionContext) -> JsResult<T>` registered under `callback_id`.
pub struct FunctionCallback<T: ValueInternal> {
    pub callback_id: u64,
    pub marker: core::marker::PhantomData<T>,
}

impl<T: ValueInternal> FunctionCallback<T> {
    /// A typed callback under a fresh registration identity.
    pub fn new(callback_id: u64) -> (cb: FunctionCallback<T>)
        ensures
            cb.callback_id == callback_id,
    {
        FunctionCallback { callback_id, marker: core::marker::PhantomData }
    }

    /// Erasure, done at registration time: the untyped form the host will
    /// store, keyed with this instantiation's type tag.
    pub fn as_ptr(&self) -> (p: ErasedCallback)
        ensures
            p.callback_id == self.callback_id,
            p.type_tag == T::spec_tag(),
    {
        ErasedCallback { callback_id: self.callback_id, type_tag: T::type_tag() }
    }

    /// Recovery, done at call time: reinterprets a slot entry as this exact
    /// type.  No runtime check is made; the precondition is the pairing
    /// contract between the slot and this trampoline instantiation.
    pub fn from_ptr(p: ErasedCallback) -> (cb: FunctionCallback<T>)
        requires
            p.type_tag == T::spec_tag(),
        ensures
            cb.callback_id == p.callback_id,
    {
        FunctionCallback { callback_id: p.callback_id, marker: core::marker::PhantomData }
    }
}

} // verus!
