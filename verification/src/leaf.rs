//! The types of error that are told apart, and what a type states of itself to be one of them.

use crate::error::CluError;
use crate::outside::WrappedError;
use vstd::prelude::*;

verus! {

/// The type of a concrete error, as far as this library tells error types apart.
#[derive(Debug, Clone, Copy, PartialEq, Eq, Structural)]
pub enum CauseType {
    /// `ComponentError`.
    Component,
    /// `std::io::Error`.
    Io,
    /// `serde_yaml::Error`.
    SerdeYaml,
    /// `fungus::errors::FileError`.
    File,
    /// `fungus::errors::IterError`.
    Iter,
    /// `fungus::errors::OsError`.
    Os,
    /// `fungus::errors::PathError`.
    Path,
    /// `fungus::errors::StringError`.
    String,
    /// `fungus::errors::UserError`.
    User,
    /// Any other type.
    Other,
}

/// A concrete error type that can be the cause of a `CluError`, and where a value of it is
/// found: directly in a `CluError`, inside the `FuError` that a `CluError` holds, or in both
/// places.
///
/// This is the side of a type that contracts and proofs speak of. How a value is fetched when
/// the program runs is said by [`Cause`](crate::cause::Cause).
pub trait Leaf: Sized {
    /// Which type this is.
    spec fn cause_type() -> CauseType;

    /// The error that `err` holds directly, as a value of this type; `None` where `err` holds
    /// an error of another type.
    spec fn payload(err: CluError) -> Option<Self>;

    /// What a `FuError` wraps, as a value of this type; `None` where it wraps an error of
    /// another type.
    spec fn wrapped(wrapped: WrappedError) -> Option<Self>;

    /// An error holds a value of this type directly exactly when it holds no `FuError` and its
    /// cause has this type.
    proof fn lemma_payload_by_type(err: CluError)
        ensures
            Self::payload(err) is Some <==> !(err is Fungus) && err.cause_type()
                == Self::cause_type(),
    ;

    /// What a `FuError` wraps is a value of this type exactly when it has this type.
    proof fn lemma_wrapped_by_type(wrapped: WrappedError)
        ensures
            Self::wrapped(wrapped) is Some <==> wrapped.cause_type() == Self::cause_type(),
    ;
}

} // verus!
