//! The invocation trampoline: the logic of the host's untyped entry point.
//!
//! One call proceeds in order: enter a scoped execution context, recover
//! the registered function from the data slot the call info names, run it
//! behind the panic-containment boundary, and deliver the outcome to the
//! host.  Two host conventions diverge only at the delivery step: the
//! legacy one writes the value into an output slot on the call info and
//! returns nothing, the direct-return one returns the value itself.

use vstd::prelude::*;
use crate::callback::FunctionCallback;
use crate::error::ContainedOutcome;
use crate::error::JsResult;
use crate::error::Throw;
use crate::error::convert_panics;
use crate::registry::Registry;
use crate::registry::recover_callback;
use crate::value::Env;
use crate::value::Handle;
use crate::value::RawValue;
use crate::value::ValueInternal;

verus! {

/// The host's descriptor of the current invocation: which data slot the
/// called function was registered in, and — under the legacy convention —
/// the output slot the trampoline may write its return value into.
/// Borrowed for the duration of one trampoline call, never stored.
#[derive(Clone, Copy, Debug)]
pub struct CallbackInfo {
    /// Index of the host data slot holding the erased callback.
    pub data_slot: usize,
    /// Legacy output slot; `None` is what the host reads as "no return
    /// value set".
    pub return_slot: Option<RawValue>,
}

impl CallbackInfo {
    /// A descriptor for a fresh invocation of the function registered in
    /// `data_slot`: no return value set yet.
    pub fn new(data_slot: usize) -> (info: CallbackInfo)
        ensures
            info.data_slot == data_slot,
            info.return_slot is None,
    {
        CallbackInfo { data_slot, return_slot: None }
    }

    /// The registered data slot of the current invocation.
    pub fn data(&self, env: Env) -> (slot: usize)
        ensures
            slot == self.data_slot,
    {
        self.data_slot
    }

    /// Sets the legacy output slot to `value`.
    pub fn set_return(&mut self, value: RawValue)
        ensures
            final(self).return_slot == Some(value),
            final(self).data_slot == old(self).data_slot,
    {
        self.return_slot = Some(value);
    }
}

/// The scoped safe execution context of one call: type-checked access to
/// host state, valid for exactly the trampoline's call frame.
#[derive(Clone, Copy, Debug, PartialEq, Eq, Structural)]
pub struct FunctionContext {
    pub env: Env,
}

/// The context the trampoline enters for a call under `env`.
pub open spec fn spec_context(env: Env) -> FunctionContext {
    FunctionContext { env: env }
}

impl FunctionContext {
    /// Enters the scoped execution context for one call.  Its lifetime is
    /// the trampoline's call frame; it must not be retained past delivery.
    pub fn enter(env: Env, info: &CallbackInfo) -> (cx: FunctionContext)
        ensures
            cx == spec_context(env),
    {
        FunctionContext { env }
    }
}

/// The host-observable value of a contained outcome: the raw form of the
/// returned handle when the function completed successfully, and nothing
/// otherwise — a typed failure and a caught panic alike deliver no value.
pub open spec fn delivered_value<T: ValueInternal>(outcome: ContainedOutcome<T>) -> Option<
    RawValue,
> {
    match outcome {
        ContainedOutcome::Completed(Ok(h)) => Some(h.value.spec_raw()),
        ContainedOutcome::Completed(Err(_)) => None,
        ContainedOutcome::Panicked => None,
    }
}

/// The legacy output slot after delivery: written with the value on
/// success, left exactly as it was on any failure.
pub open spec fn legacy_slot_after<T: ValueInternal>(
    outcome: ContainedOutcome<T>,
    slot_before: Option<RawValue>,
) -> Option<RawValue> {
    match delivered_value(outcome) {
        Some(v) => Some(v),
        None => slot_before,
    }
}

/// What the direct-return trampoline hands the host for a contained
/// outcome: the value on success, the explicit no-value sentinel otherwise.
pub open spec fn direct_return_of<T: ValueInternal>(outcome: ContainedOutcome<T>) -> DirectReturn {
    match delivered_value(outcome) {
        Some(v) => DirectReturn::Value(v),
        None => DirectReturn::NoValue,
    }
}

/// What the direct-return convention hands back to the host.  On failure
/// no host value exists, and returning a guessed default through the C
/// boundary would be unsound; the policy here is an explicit, distinguished
/// sentinel the embedding layer must translate before the host reads it as
/// a value.
#[derive(Clone, Copy, Debug, PartialEq, Eq, Structural)]
pub enum DirectReturn {
    /// The raw form of the value the function returned.
    Value(RawValue),
    /// No value was produced: the function failed or panicked.
    NoValue,
}

/// Delivery under the legacy convention: on success the value's raw form
/// is written into the output slot; on a typed failure or a caught panic
/// the slot is left exactly as it was — never partially written — and the
/// host observes "no return value set".
pub fn complete_legacy<T: ValueInternal>(info: &mut CallbackInfo, outcome: ContainedOutcome<T>)
    ensures
        final(info).data_slot == old(info).data_slot,
        final(info).return_slot == legacy_slot_after(outcome, old(info).return_slot),
{
    match outcome {
        ContainedOutcome::Completed(Ok(value)) => {
            info.set_return(value.value.to_raw());
        },
        ContainedOutcome::Completed(Err(_)) => {},
        ContainedOutcome::Panicked => {},
    }
}

/// Steps one to three of the trampoline: enter the scoped execution
/// context for this call and recover the registered function from the data
/// slot the call info names.  The preconditions are the pairing contract of
/// the recovery: the named slot holds a callback of exactly this
/// instantiation's type.
pub fn prepare_call<T: ValueInternal>(reg: &Registry, env: Env, info: &CallbackInfo) -> (r: (
    FunctionContext,
    FunctionCallback<T>,
))
    requires
        info.data_slot < reg.slots_model().len(),
        reg.slots_model()[info.data_slot as int].type_tag == T::spec_tag(),
    ensures
        r.0 == spec_context(env),
        r.1.callback_id == reg.slots_model()[info.data_slot as int].callback_id,
{
    let cx = FunctionContext::enter(env, info);
    let data = info.data(env);
    let dynamic_callback = recover_callback::<T>(reg, env, data);
    (cx, dynamic_callback)
}

/// The whole trampoline under the legacy convention, for a registered
/// function this crate has checked: enter the context, run the function
/// behind the containment boundary, and deliver its outcome into the
/// output slot.  On success the slot holds the returned value's raw form;
/// on a typed failure the slot is left exactly as it was.  A panic cannot
/// occur: the function is verified, and an unchecked one is guarded
/// outside the verified core with its outcome handed to `complete_legacy`.
pub fn invoke_legacy<T: ValueInternal, F: FnOnce(FunctionContext) -> JsResult<T>>(
    env: Env,
    info: &mut CallbackInfo,
    f: F,
)
    requires
        call_requires(f, (spec_context(env),)),
    ensures
        final(info).data_slot == old(info).data_slot,
        exists|res: JsResult<T>|
            call_ensures(f, (spec_context(env),), res) && final(info).return_slot
                == legacy_slot_after(ContainedOutcome::Completed(res), old(info).return_slot),
{
    let cx = FunctionContext::enter(env, info);
    let guarded = (|| -> (r: JsResult<T>)
        requires
            call_requires(f, (spec_context(env),)),
        ensures
            call_ensures(f, (spec_context(env),), r),
        { f(cx) });
    let outcome = convert_panics(guarded);
    complete_legacy(info, outcome);
}

/// The whole trampoline under the direct-return convention, for a
/// registered function this crate has checked: enter the context, run the
/// function behind the containment boundary, and return its outcome —
/// the returned value's raw form on success, the explicit no-value
/// sentinel on a typed failure.
pub fn invoke_direct<T: ValueInternal, F: FnOnce(FunctionContext) -> JsResult<T>>(
    env: Env,
    info: &CallbackInfo,
    f: F,
) -> (r: DirectReturn)
    requires
        call_requires(f, (spec_context(env),)),
    ensures
        exists|res: JsResult<T>|
            call_ensures(f, (spec_context(env),), res) && r == direct_return_of(
                ContainedOutcome::Completed(res),
            ),
{
    let cx = FunctionContext::enter(env, info);
    let guarded = (|| -> (r: JsResult<T>)
        requires
            call_requires(f, (spec_context(env),)),
        ensures
            call_ensures(f, (spec_context(env),), r),
        { f(cx) });
    let outcome = convert_panics(guarded);
    complete_direct(outcome)
}

/// Delivery under the direct-return convention: the value's raw form on
/// success, the explicit no-value sentinel on a typed failure or a caught
/// panic.
pub fn complete_direct<T: ValueInternal>(outcome: ContainedOutcome<T>) -> (r: DirectReturn)
    ensures
        r == direct_return_of(outcome),
{
    match outcome {
        ContainedOutcome::Completed(Ok(value)) => DirectReturn::Value(value.value.to_raw()),
        ContainedOutcome::Completed(Err(_)) => DirectReturn::NoValue,
        ContainedOutcome::Panicked => DirectReturn::NoValue,
    }
}

/// Round trip: when a registered function completes with a success handle,
/// the value the host observes — through the legacy output slot or as the
/// direct return — is exactly the raw form of that handle's value, the
/// same as converting the function's result directly; and it carries the
/// tag of the value type the function was registered for.
pub proof fn lemma_round_trip<T: ValueInternal>(h: Handle<T>, slot_before: Option<RawValue>)
    ensures
        legacy_slot_after(ContainedOutcome::Completed(Ok(h)), slot_before) == Some(
            h.value.spec_raw(),
        ),
        direct_return_of(ContainedOutcome::Completed(Ok(h))) == DirectReturn::Value(
            h.value.spec_raw(),
        ),
        h.value.spec_raw().tag == T::spec_tag(),
{
    h.value.raw_carries_tag();
}

/// A caught panic delivers nothing: under the legacy convention the output
/// slot is left exactly as it was — in particular, a slot with no return
/// value set stays unset — and under the direct-return convention the host
/// is handed the explicit no-value sentinel, never a guessed value.
pub proof fn lemma_panic_delivers_nothing<T: ValueInternal>(slot_before: Option<RawValue>)
    ensures
        delivered_value(ContainedOutcome::<T>::Panicked) is None,
        legacy_slot_after(ContainedOutcome::<T>::Panicked, slot_before) == slot_before,
        direct_return_of(ContainedOutcome::<T>::Panicked) == DirectReturn::NoValue,
{
}

/// A typed failure and a caught panic are indistinguishable to the host:
/// both deliver the same "no value produced" outcome under either
/// convention, and neither writes the output slot even in part.
pub proof fn lemma_failure_uniform<T: ValueInternal>(slot_before: Option<RawValue>)
    ensures
        legacy_slot_after(ContainedOutcome::<T>::Completed(Err(Throw)), slot_before)
            == legacy_slot_after(ContainedOutcome::<T>::Panicked, slot_before),
        direct_return_of(ContainedOutcome::<T>::Completed(Err(Throw))) == direct_return_of(
            ContainedOutcome::<T>::Panicked,
        ),
{
}

/// Idempotence of delivery: the trampoline keeps no state of its own, so
/// two invocations whose contained outcomes and starting output slots are
/// equal deliver equal results to the host, under either convention.
pub proof fn lemma_invocation_idempotent<T: ValueInternal>(
    first: ContainedOutcome<T>,
    second: ContainedOutcome<T>,
    slot_first: Option<RawValue>,
    slot_second: Option<RawValue>,
)
    requires
        first == second,
        slot_first == slot_second,
    ensures
        legacy_slot_after(first, slot_first) == legacy_slot_after(second, slot_second),
        direct_return_of(first) == direct_return_of(second),
{
}

} // verus!
