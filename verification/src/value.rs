//! Host values: the untyped raw form in which values cross the C boundary,
//! and the typed views the safe side works with.

use vstd::prelude::*;
use vstd::string::StringExecFns;

verus! {

/// The host's runtime type tag carried by object values.
pub const OBJECT_TAG: u64 = 1;

/// The host's runtime type tag carried by number values.
pub const NUMBER_TAG: u64 = 2;

/// A host value in its untyped form: the shape in which values cross the
/// C boundary.  `tag` identifies the host-side runtime type of the value;
/// `payload` is the opaque handle word the host uses to refer to it.
#[derive(Clone, Copy, Debug, PartialEq, Eq, Structural)]
pub struct RawValue {
    pub tag: u64,
    pub payload: u64,
}

/// The opaque environment handle the host supplies for the lifetime of one
/// call.  It is borrowed, never stored: it must not outlive the call.
#[derive(Clone, Copy, Debug, PartialEq, Eq, Structural)]
pub struct Env {
    pub id: u64,
}

/// A handle to a typed value, scoped to the current call frame.
pub struct Handle<T> {
    pub value: T,
}

impl<T> Handle<T> {
    /// Wraps a typed value in a call-scoped handle.
    pub fn new_internal(value: T) -> (h: Handle<T>)
        ensures
            h.value == value,
    {
        Handle { value }
    }
}

/// A typed view of host values.  Each implementing type owns exactly one
/// host type tag; its values' raw form always carries that tag, so a raw
/// value's tag decides which typed view it can be downcast to.
pub trait ValueInternal: Sized {
    /// The host type tag that values of this type carry.
    spec fn spec_tag() -> u64;

    /// The raw form of this value: what the host sees of it.
    spec fn spec_raw(self) -> RawValue;

    /// Every value of the type carries the type's own tag in its raw form.
    proof fn raw_carries_tag(self)
        ensures
            self.spec_raw().tag == Self::spec_tag(),
    ;

    /// Human-readable name of the type.
    fn name() -> String;

    /// The host type tag, as a runtime value.
    fn type_tag() -> (t: u64)
        ensures
            t == Self::spec_tag(),
    ;

    /// Converts this value to the untyped form handed to the host.
    fn to_raw(&self) -> (r: RawValue)
        ensures
            r == self.spec_raw(),
    ;

    /// Reinterprets a raw value as this type.  The caller must know the tag
    /// matches: no runtime check is made here.
    fn from_raw(raw: RawValue) -> (v: Self)
        requires
            raw.tag == Self::spec_tag(),
        ensures
            v.spec_raw() == raw,
    ;

    /// Whether an untyped host value is of this type, judged by its host
    /// type tag.
    fn is_typeof(env: Env, other: RawValue) -> (b: bool)
        ensures
            b == (other.tag == Self::spec_tag()),
    ;

    /// Checked conversion from the untyped form: `Some` exactly when
    /// `other`'s tag is this type's tag, and then the value's raw form is
    /// `other` unchanged.
    fn downcast(env: Env, other: RawValue) -> (r: Option<Self>)
        ensures
            r is Some <==> other.tag == Self::spec_tag(),
            r matches Some(v) ==> v.spec_raw() == other,
    {
        if Self::is_typeof(env, other) {
            Some(Self::from_raw(other))
        } else {
            None
        }
    }

}

/// Applies `f` to a value's raw form and wraps the typed result in a
/// call-scoped handle.
pub fn cast<S: ValueInternal, T: ValueInternal, F: FnOnce(RawValue) -> T>(value: S, f: F) -> (h:
    Handle<T>)
    requires
        call_requires(f, (value.spec_raw(),)),
    ensures
        call_ensures(f, (value.spec_raw(),), h.value),
{
    Handle::new_internal(f(value.to_raw()))
}

/// Model of a host object value: an opaque handle word tagged as an object.
#[derive(Clone, Copy, Debug, PartialEq, Eq, Structural)]
pub struct JsObject {
    pub payload: u64,
}

impl ValueInternal for JsObject {
    open spec fn spec_tag() -> u64 {
        OBJECT_TAG
    }

    open spec fn spec_raw(self) -> RawValue {
        RawValue { tag: OBJECT_TAG, payload: self.payload }
    }

    proof fn raw_carries_tag(self) {
    }

    fn name() -> String {
        String::from_str("object")
    }

    fn type_tag() -> u64 {
        OBJECT_TAG
    }

    fn to_raw(&self) -> RawValue {
        RawValue { tag: OBJECT_TAG, payload: self.payload }
    }

    fn from_raw(raw: RawValue) -> JsObject {
        JsObject { payload: raw.payload }
    }

    fn is_typeof(env: Env, other: RawValue) -> bool {
        other.tag == OBJECT_TAG
    }
}

/// Model of a host number value: an opaque handle word tagged as a number.
#[derive(Clone, Copy, Debug, PartialEq, Eq, Structural)]
pub struct JsNumber {
    pub payload: u64,
}

impl ValueInternal for JsNumber {
    open spec fn spec_tag() -> u64 {
        NUMBER_TAG
    }

    open spec fn spec_raw(self) -> RawValue {
        RawValue { tag: NUMBER_TAG, payload: self.payload }
    }

    proof fn raw_carries_tag(self) {
    }

    fn name() -> String {
        String::from_str("number")
    }

    fn type_tag() -> u64 {
        NUMBER_TAG
    }

    fn to_raw(&self) -> RawValue {
        RawValue { tag: NUMBER_TAG, payload: self.payload }
    }

    fn from_raw(raw: RawValue) -> JsNumber {
        JsNumber { payload: raw.payload }
    }

    fn is_typeof(env: Env, other: RawValue) -> bool {
        other.tag == NUMBER_TAG
    }
}

} // verus!
