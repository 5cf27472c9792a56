//! How the error types that a `CluError` can be asked for are fetched from it.

use crate::component::ComponentError;
use crate::error::CluError;
use crate::leaf::{CauseType, Leaf};
use crate::outside::{fungus_downcast_mut, fungus_downcast_ref, fungus_wrapped, WrappedError};
use fungus::errors::{FileError, FuError, IterError, OsError, PathError, StringError, UserError};
use vstd::prelude::*;

verus! {

/// A concrete error type that a [`CluError`] can be asked for.
///
/// `CluError` decides where to look, in itself or in the `FuError` it holds, and the type
/// hands out the value found there.
pub trait Cause: Leaf {
    /// The error that `err` holds directly, if it is of this type.
    fn payload_ref(err: &CluError) -> (r: Option<&Self>)
        ensures
            r matches Some(c) ==> Self::payload(*err) == Some(*c),
            r is None ==> Self::payload(*err) is None,
    ;

    /// The error that `err` holds directly, if it is of this type, to be changed in place.
    /// What the caller leaves behind the reference is what `err` holds afterwards, and an
    /// error that held no `FuError` holds none afterwards.
    fn payload_mut(err: &mut CluError) -> (r: Option<&mut Self>)
        ensures
            r matches Some(c) ==> Self::payload(*old(err)) == Some(*c),
            r matches Some(c) ==> Self::payload(*final(err)) == Some(*final(c)),
            r is None ==> Self::payload(*old(err)) is None,
            r is None ==> *final(err) == *old(err),
            *final(err) is Fungus <==> *old(err) is Fungus,
    ;

    /// The error that `f` wraps, if it is of this type.
    fn wrapped_ref(f: &FuError) -> (r: Option<&Self>)
        ensures
            r matches Some(c) ==> Self::wrapped(fungus_wrapped(*f)) == Some(*c),
            r is None ==> Self::wrapped(fungus_wrapped(*f)) is None,
    ;

    /// The error that `f` wraps, if it is of this type, to be changed in place. What the caller
    /// leaves behind the reference is what `f` wraps afterwards.
    fn wrapped_mut(f: &mut FuError) -> (r: Option<&mut Self>)
        ensures
            r matches Some(c) ==> Self::wrapped(fungus_wrapped(*old(f))) == Some(*c),
            r matches Some(c) ==> Self::wrapped(fungus_wrapped(*final(f))) == Some(*final(c)),
            r is None ==> Self::wrapped(fungus_wrapped(*old(f))) is None,
            r is None ==> *final(f) == *old(f),
    ;
}

/// A component error is found directly in a `CluError`; no `FuError` wraps one.
impl Leaf for ComponentError {
    open spec fn cause_type() -> CauseType {
        CauseType::Component
    }

    open spec fn payload(err: CluError) -> Option<Self> {
        match err {
            CluError::Component(e) => Some(e),
            _ => None,
        }
    }

    open spec fn wrapped(wrapped: WrappedError) -> Option<Self> {
        None
    }

    proof fn lemma_payload_by_type(err: CluError) {
    }

    proof fn lemma_wrapped_by_type(wrapped: WrappedError) {
    }
}

impl Cause for ComponentError {
    fn payload_ref(err: &CluError) -> (r: Option<&Self>) {
        match err {
            CluError::Component(e) => Some(e),
            _ => None,
        }
    }

    fn payload_mut(err: &mut CluError) -> (r: Option<&mut Self>) {
        match err {
            CluError::Component(e) => Some(e),
            _ => None,
        }
    }

    fn wrapped_ref(f: &FuError) -> (r: Option<&Self>) {
        None
    }

    fn wrapped_mut(f: &mut FuError) -> (r: Option<&mut Self>) {
        None
    }
}

/// An I/O error is found directly in a `CluError`, and inside a `FuError` as well.
impl Leaf for std::io::Error {
    open spec fn cause_type() -> CauseType {
        CauseType::Io
    }

    open spec fn payload(err: CluError) -> Option<Self> {
        match err {
            CluError::Io(e) => Some(e),
            _ => None,
        }
    }

    open spec fn wrapped(wrapped: WrappedError) -> Option<Self> {
        match wrapped {
            WrappedError::Io(e) => Some(e),
            _ => None,
        }
    }

    proof fn lemma_payload_by_type(err: CluError) {
    }

    proof fn lemma_wrapped_by_type(wrapped: WrappedError) {
    }
}

impl Cause for std::io::Error {
    fn payload_ref(err: &CluError) -> (r: Option<&Self>) {
        match err {
            CluError::Io(e) => Some(e),
            _ => None,
        }
    }

    fn payload_mut(err: &mut CluError) -> (r: Option<&mut Self>) {
        match err {
            CluError::Io(e) => Some(e),
            _ => None,
        }
    }

    fn wrapped_ref(f: &FuError) -> (r: Option<&Self>) {
        fungus_downcast_ref::<Self>(f)
    }

    fn wrapped_mut(f: &mut FuError) -> (r: Option<&mut Self>) {
        fungus_downcast_mut::<Self>(f)
    }
}

/// A `serde_yaml` error is found directly in a `CluError`; no `FuError` wraps one.
impl Leaf for serde_yaml::Error {
    open spec fn cause_type() -> CauseType {
        CauseType::SerdeYaml
    }

    open spec fn payload(err: CluError) -> Option<Self> {
        match err {
            CluError::SerdeYaml(e) => Some(e),
            _ => None,
        }
    }

    open spec fn wrapped(wrapped: WrappedError) -> Option<Self> {
        None
    }

    proof fn lemma_payload_by_type(err: CluError) {
    }

    proof fn lemma_wrapped_by_type(wrapped: WrappedError) {
    }
}

impl Cause for serde_yaml::Error {
    fn payload_ref(err: &CluError) -> (r: Option<&Self>) {
        match err {
            CluError::SerdeYaml(e) => Some(e),
            _ => None,
        }
    }

    fn payload_mut(err: &mut CluError) -> (r: Option<&mut Self>) {
        match err {
            CluError::SerdeYaml(e) => Some(e),
            _ => None,
        }
    }

    fn wrapped_ref(f: &FuError) -> (r: Option<&Self>) {
        None
    }

    fn wrapped_mut(f: &mut FuError) -> (r: Option<&mut Self>) {
        None
    }
}

/// A `FileError` is found only inside a `FuError`.
impl Leaf for FileError {
    open spec fn cause_type() -> CauseType {
        CauseType::File
    }

    open spec fn payload(err: CluError) -> Option<Self> {
        None
    }

    open spec fn wrapped(wrapped: WrappedError) -> Option<Self> {
        match wrapped {
            WrappedError::File(e) => Some(e),
            _ => None,
        }
    }

    proof fn lemma_payload_by_type(err: CluError) {
    }

    proof fn lemma_wrapped_by_type(wrapped: WrappedError) {
    }
}

impl Cause for FileError {
    fn payload_ref(err: &CluError) -> (r: Option<&Self>) {
        None
    }

    fn payload_mut(err: &mut CluError) -> (r: Option<&mut Self>) {
        None
    }

    fn wrapped_ref(f: &FuError) -> (r: Option<&Self>) {
        fungus_downcast_ref::<Self>(f)
    }

    fn wrapped_mut(f: &mut FuError) -> (r: Option<&mut Self>) {
        fungus_downcast_mut::<Self>(f)
    }
}

/// A `IterError` is found only inside a `FuError`.
impl Leaf for IterError {
    open spec fn cause_type() -> CauseType {
        CauseType::Iter
    }

    open spec fn payload(err: CluError) -> Option<Self> {
        None
    }

    open spec fn wrapped(wrapped: WrappedError) -> Option<Self> {
        match wrapped {
            WrappedError::Iter(e) => Some(e),
            _ => None,
        }
    }

    proof fn lemma_payload_by_type(err: CluError) {
    }

    proof fn lemma_wrapped_by_type(wrapped: WrappedError) {
    }
}

impl Cause for IterError {
    fn payload_ref(err: &CluError) -> (r: Option<&Self>) {
        None
    }

    fn payload_mut(err: &mut CluError) -> (r: Option<&mut Self>) {
        None
    }

    fn wrapped_ref(f: &FuError) -> (r: Option<&Self>) {
        fungus_downcast_ref::<Self>(f)
    }

    fn wrapped_mut(f: &mut FuError) -> (r: Option<&mut Self>) {
        fungus_downcast_mut::<Self>(f)
    }
}

/// A `OsError` is found only inside a `FuError`.
impl Leaf for OsError {
    open spec fn cause_type() -> CauseType {
        CauseType::Os
    }

    open spec fn payload(err: CluError) -> Option<Self> {
        None
    }

    open spec fn wrapped(wrapped: WrappedError) -> Option<Self> {
        match wrapped {
            WrappedError::Os(e) => Some(e),
            _ => None,
        }
    }

    proof fn lemma_payload_by_type(err: CluError) {
    }

    proof fn lemma_wrapped_by_type(wrapped: WrappedError) {
    }
}

impl Cause for OsError {
    fn payload_ref(err: &CluError) -> (r: Option<&Self>) {
        None
    }

    fn payload_mut(err: &mut CluError) -> (r: Option<&mut Self>) {
        None
    }

    fn wrapped_ref(f: &FuError) -> (r: Option<&Self>) {
        fungus_downcast_ref::<Self>(f)
    }

    fn wrapped_mut(f: &mut FuError) -> (r: Option<&mut Self>) {
        fungus_downcast_mut::<Self>(f)
    }
}

/// A `PathError` is found only inside a `FuError`.
impl Leaf for PathError {
    open spec fn cause_type() -> CauseType {
        CauseType::Path
    }

    open spec fn payload(err: CluError) -> Option<Self> {
        None
    }

    open spec fn wrapped(wrapped: WrappedError) -> Option<Self> {
        match wrapped {
            WrappedError::Path(e) => Some(e),
            _ => None,
        }
    }

    proof fn lemma_payload_by_type(err: CluError) {
    }

    proof fn lemma_wrapped_by_type(wrapped: WrappedError) {
    }
}

impl Cause for PathError {
    fn payload_ref(err: &CluError) -> (r: Option<&Self>) {
        None
    }

    fn payload_mut(err: &mut CluError) -> (r: Option<&mut Self>) {
        None
    }

    fn wrapped_ref(f: &FuError) -> (r: Option<&Self>) {
        fungus_downcast_ref::<Self>(f)
    }

    fn wrapped_mut(f: &mut FuError) -> (r: Option<&mut Self>) {
        fungus_downcast_mut::<Self>(f)
    }
}

/// A `StringError` is found only inside a `FuError`.
impl Leaf for StringError {
    open spec fn cause_type() -> CauseType {
        CauseType::String
    }

    open spec fn payload(err: CluError) -> Option<Self> {
        None
    }

    open spec fn wrapped(wrapped: WrappedError) -> Option<Self> {
        match wrapped {
            WrappedError::String(e) => Some(e),
            _ => None,
        }
    }

    proof fn lemma_payload_by_type(err: CluError) {
    }

    proof fn lemma_wrapped_by_type(wrapped: WrappedError) {
    }
}

impl Cause for StringError {
    fn payload_ref(err: &CluError) -> (r: Option<&Self>) {
        None
    }

    fn payload_mut(err: &mut CluError) -> (r: Option<&mut Self>) {
        None
    }

    fn wrapped_ref(f: &FuError) -> (r: Option<&Self>) {
        fungus_downcast_ref::<Self>(f)
    }

    fn wrapped_mut(f: &mut FuError) -> (r: Option<&mut Self>) {
        fungus_downcast_mut::<Self>(f)
    }
}

/// A `UserError` is found only inside a `FuError`.
impl Leaf for UserError {
    open spec fn cause_type() -> CauseType {
        CauseType::User
    }

    open spec fn payload(err: CluError) -> Option<Self> {
        None
    }

    open spec fn wrapped(wrapped: WrappedError) -> Option<Self> {
        match wrapped {
            WrappedError::User(e) => Some(e),
            _ => None,
        }
    }

    proof fn lemma_payload_by_type(err: CluError) {
    }

    proof fn lemma_wrapped_by_type(wrapped: WrappedError) {
    }
}

impl Cause for UserError {
    fn payload_ref(err: &CluError) -> (r: Option<&Self>) {
        None
    }

    fn payload_mut(err: &mut CluError) -> (r: Option<&mut Self>) {
        None
    }

    fn wrapped_ref(f: &FuError) -> (r: Option<&Self>) {
        fungus_downcast_ref::<Self>(f)
    }

    fn wrapped_mut(f: &mut FuError) -> (r: Option<&mut Self>) {
        fungus_downcast_mut::<Self>(f)
    }
}

} // verus!
