//! Model of the host's registration table.
//!
//! The host stores, per registered function, one data slot holding the
//! erased callback, and hands the slot back to the trampoline at call time.
//! The host's only promise is that whatever was stored is returned
//! unchanged and un-type-checked; the typed recovery below turns that
//! promise plus the registration-time pairing into a typed callback.

use vstd::prelude::*;
use crate::callback::ErasedCallback;
use crate::callback::FunctionCallback;
use crate::value::Env;
use crate::value::ValueInternal;

verus! {

/// The host's registration table: one data slot per registered function,
/// identified by its index.
pub struct Registry {
    slots: Vec<ErasedCallback>,
}

impl Registry {
    /// The slots as the host holds them, in registration order.
    pub closed spec fn slots_model(&self) -> Seq<ErasedCallback> {
        self.slots@
    }

    /// An empty table: nothing registered yet.
    pub fn new() -> (r: Registry)
        ensures
            r.slots_model() == Seq::<ErasedCallback>::empty(),
    {
        Registry { slots: Vec::new() }
    }

    /// Registration: stores an erased callback in a fresh slot and returns
    /// the slot's index.  Existing slots are untouched.
    pub fn register(&mut self, cb: ErasedCallback) -> (slot: usize)
        ensures
            final(self).slots_model() == old(self).slots_model().push(cb),
            slot == old(self).slots_model().len(),
    {
        let slot = self.slots.len();
        self.slots.push(cb);
        slot
    }

    /// The host's slot lookup: returns what was stored, unchanged and
    /// un-type-checked.
    pub fn dynamic_callback(&self, env: Env, slot: usize) -> (cb: ErasedCallback)
        requires
            slot < self.slots_model().len(),
        ensures
            cb == self.slots_model()[slot as int],
    {
        self.slots[slot]
    }

    /// How many functions are registered.
    pub fn len(&self) -> (n: usize)
        ensures
            n == self.slots_model().len(),
    {
        self.slots.len()
    }
}

/// Dynamic callback registry access: recovers, for the current call, the
/// original typed function that was erased into `slot` at registration
/// time.  The lookup makes no runtime type check — the preconditions are
/// the pairing contract: the slot must have been produced by registering
/// exactly this instantiation's function type.
pub fn recover_callback<T: ValueInternal>(reg: &Registry, env: Env, slot: usize) -> (cb:
    FunctionCallback<T>)
    requires
        slot < reg.slots_model().len(),
        reg.slots_model()[slot as int].type_tag == T::spec_tag(),
    ensures
        cb.callback_id == reg.slots_model()[slot as int].callback_id,
{
    FunctionCallback::<T>::from_ptr(reg.dynamic_callback(env, slot))
}

/// Type separation: registering two differently-typed functions, in either
/// order and under any prior registrations, leaves each one's slot holding
/// exactly its own erased callback, and neither slot carries the other's
/// type tag — so neither trampoline instantiation can resolve the other's
/// slot, its pairing precondition failing on the foreign tag.
pub proof fn lemma_type_separation(prior: Seq<ErasedCallback>, a: ErasedCallback, b: ErasedCallback)
    requires
        a.type_tag != b.type_tag,
    ensures
        prior.push(a).push(b)[prior.len() as int] == a,
        prior.push(a).push(b)[prior.len() as int + 1] == b,
        prior.push(a).push(b)[prior.len() as int].type_tag != b.type_tag,
        prior.push(a).push(b)[prior.len() as int + 1].type_tag != a.type_tag,
{
}

} // verus!
