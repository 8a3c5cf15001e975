use trampoline::callback::ErasedCallback;
use trampoline::callback::FunctionCallback;
use trampoline::error::ContainedOutcome;
use trampoline::error::JsResult;
use trampoline::error::Throw;
use trampoline::error::convert_panics;
use trampoline::registry::Registry;
use trampoline::registry::recover_callback;
use trampoline::trampoline::CallbackInfo;
use trampoline::trampoline::DirectReturn;
use trampoline::trampoline::FunctionContext;
use trampoline::trampoline::complete_direct;
use trampoline::trampoline::complete_legacy;
use trampoline::trampoline::invoke_direct;
use trampoline::trampoline::invoke_legacy;
use trampoline::trampoline::prepare_call;
use trampoline::value::Env;
use trampoline::value::Handle;
use trampoline::value::JsNumber;
use trampoline::value::JsObject;
use trampoline::value::NUMBER_TAG;
use trampoline::value::OBJECT_TAG;
use trampoline::value::RawValue;
use trampoline::value::ValueInternal;
use trampoline::value::cast;

#[test]
fn fixed_success_value_reaches_legacy_slot() {
    // A function that always returns the fixed value 42 as a number: after
    // one invocation the legacy output slot holds exactly its host encoding.
    let env = Env { id: 7 };
    let mut info = CallbackInfo::new(0);
    let f = |_cx: FunctionContext| -> JsResult<JsNumber> {
        Ok(Handle::new_internal(JsNumber { payload: 42 }))
    };
    invoke_legacy(env, &mut info, f);
    assert_eq!(info.return_slot, Some(RawValue { tag: NUMBER_TAG, payload: 42 }));
    assert_eq!(info.data_slot, 0);
}

#[test]
fn fixed_success_value_is_returned_directly() {
    let env = Env { id: 7 };
    let info = CallbackInfo::new(0);
    let f = |_cx: FunctionContext| -> JsResult<JsObject> {
        Ok(Handle::new_internal(JsObject { payload: 9 }))
    };
    let r = invoke_direct(env, &info, f);
    assert_eq!(r, DirectReturn::Value(RawValue { tag: OBJECT_TAG, payload: 9 }));
}

#[test]
fn caught_panic_leaves_legacy_slot_unset() {
    // The containment boundary reports a caught panic; delivery leaves the
    // output slot unset, the host observes "no return value set", and the
    // process keeps running.
    let mut info = CallbackInfo::new(3);
    complete_legacy(&mut info, ContainedOutcome::<JsNumber>::Panicked);
    assert_eq!(info.return_slot, None);
    assert_eq!(info.data_slot, 3);
}

#[test]
fn caught_panic_returns_the_no_value_sentinel() {
    let r = complete_direct(ContainedOutcome::<JsNumber>::Panicked);
    assert_eq!(r, DirectReturn::NoValue);
}

#[test]
fn typed_failure_delivers_nothing() {
    // A function that signals its own typed failure: same host-observable
    // outcome as a caught panic, and the output slot is never written.
    let env = Env { id: 1 };
    let mut info = CallbackInfo::new(0);
    let f = |_cx: FunctionContext| -> JsResult<JsNumber> { Err(Throw) };
    invoke_legacy(env, &mut info, f);
    assert_eq!(info.return_slot, None);

    let r = invoke_direct(env, &info, |_cx: FunctionContext| -> JsResult<JsNumber> { Err(Throw) });
    assert_eq!(r, DirectReturn::NoValue);
}

#[test]
fn typed_failure_and_panic_agree() {
    let mut failed = CallbackInfo::new(0);
    let mut panicked = CallbackInfo::new(0);
    complete_legacy(&mut failed, ContainedOutcome::<JsObject>::Completed(Err(Throw)));
    complete_legacy(&mut panicked, ContainedOutcome::<JsObject>::Panicked);
    assert_eq!(failed.return_slot, panicked.return_slot);

    let direct_failed = complete_direct(ContainedOutcome::<JsObject>::Completed(Err(Throw)));
    let direct_panicked = complete_direct(ContainedOutcome::<JsObject>::Panicked);
    assert_eq!(direct_failed, direct_panicked);
}

#[test]
fn repeated_invocation_is_idempotent() {
    // Invoking the same registered function twice with equivalent inputs
    // produces equivalent host-observable outcomes.
    let env = Env { id: 5 };
    let f = |_cx: FunctionContext| -> JsResult<JsObject> {
        Ok(Handle::new_internal(JsObject { payload: 13 }))
    };
    let mut first = CallbackInfo::new(2);
    let mut second = CallbackInfo::new(2);
    invoke_legacy(env, &mut first, f);
    invoke_legacy(env, &mut second, f);
    assert_eq!(first.return_slot, second.return_slot);

    let d1 = invoke_direct(env, &first, f);
    let d2 = invoke_direct(env, &second, f);
    assert_eq!(d1, d2);
}

#[test]
fn two_instantiations_do_not_cross_resolve() {
    // Two trampoline instantiations for differently-typed functions under
    // one host: each recovers exactly its own erased callback, and the two
    // slots carry distinct type tags.
    let mut reg = Registry::new();
    let cb_obj = FunctionCallback::<JsObject>::new(10);
    let cb_num = FunctionCallback::<JsNumber>::new(11);
    let slot_obj = reg.register(cb_obj.as_ptr());
    let slot_num = reg.register(cb_num.as_ptr());
    assert_eq!(reg.len(), 2);

    let env = Env { id: 1 };
    let info_obj = CallbackInfo::new(slot_obj);
    let info_num = CallbackInfo::new(slot_num);
    let (cx, recovered_obj) = prepare_call::<JsObject>(&reg, env, &info_obj);
    let (_, recovered_num) = prepare_call::<JsNumber>(&reg, env, &info_num);
    assert_eq!(cx.env, env);
    assert_eq!(recovered_obj.callback_id, 10);
    assert_eq!(recovered_num.callback_id, 11);
    assert_ne!(cb_obj.as_ptr().type_tag, cb_num.as_ptr().type_tag);
}

#[test]
fn erasure_then_recovery_preserves_identity() {
    let cb = FunctionCallback::<JsObject>::new(77);
    let erased = cb.as_ptr();
    assert_eq!(erased, ErasedCallback { callback_id: 77, type_tag: OBJECT_TAG });
    let recovered = FunctionCallback::<JsObject>::from_ptr(erased);
    assert_eq!(recovered.callback_id, 77);
}

#[test]
fn registry_returns_slots_unchanged() {
    let mut reg = Registry::new();
    let a = ErasedCallback { callback_id: 1, type_tag: OBJECT_TAG };
    let b = ErasedCallback { callback_id: 2, type_tag: NUMBER_TAG };
    let sa = reg.register(a);
    let sb = reg.register(b);
    assert_eq!((sa, sb), (0, 1));
    let env = Env { id: 0 };
    assert_eq!(reg.dynamic_callback(env, sa), a);
    assert_eq!(reg.dynamic_callback(env, sb), b);
    let typed = recover_callback::<JsNumber>(&reg, env, sb);
    assert_eq!(typed.callback_id, 2);
}

#[test]
fn downcast_succeeds_exactly_on_matching_tag() {
    let env = Env { id: 0 };
    let raw = RawValue { tag: OBJECT_TAG, payload: 5 };
    assert!(JsObject::is_typeof(env, raw));
    assert!(!JsNumber::is_typeof(env, raw));
    let as_object = JsObject::downcast(env, raw);
    assert_eq!(as_object, Some(JsObject { payload: 5 }));
    let as_number = JsNumber::downcast(env, raw);
    assert_eq!(as_number, None);
}

#[test]
fn raw_round_trip_keeps_payload() {
    let v = JsNumber::from_raw(RawValue { tag: NUMBER_TAG, payload: 123 });
    assert_eq!(v, JsNumber { payload: 123 });
    assert_eq!(v.to_raw(), RawValue { tag: NUMBER_TAG, payload: 123 });
}

#[test]
fn cast_applies_the_conversion() {
    let h = cast(JsObject { payload: 6 }, |raw: RawValue| JsNumber { payload: raw.payload });
    assert_eq!(h.value, JsNumber { payload: 6 });
}

#[test]
fn contained_verified_call_completes() {
    let o = convert_panics(|| -> JsResult<JsNumber> {
        Ok(Handle::new_internal(JsNumber { payload: 8 }))
    });
    assert!(
        matches!(o, ContainedOutcome::Completed(Ok(h)) if h.value == JsNumber { payload: 8 })
    );
}

#[test]
fn type_names_are_distinct() {
    assert_eq!(JsObject::name(), "object");
    assert_eq!(JsNumber::name(), "number");
    assert_ne!(JsObject::type_tag(), JsNumber::type_tag());
}
