//! What holds of every `CluError`.

use crate::component::ComponentError;
use crate::error::CluError;
use crate::leaf::{CauseType, Leaf};
use crate::outside::{fungus_wrapped, WrappedError};
use fungus::errors::FuError;
use vstd::prelude::*;
use vstd::std_specs::convert::FromSpec;
use vstd::string::to_string_from_display_ensures;

verus! {

/// The cause of an error is a `T` exactly when the type of the cause is `T`: `downcast_ref`
/// hands out a `T` on the errors on which `is` says yes, and on no others.
pub proof fn lemma_cause_by_type<T: Leaf>(err: CluError)
    ensures
        err.cause::<T>() is Some <==> err.cause_type() == T::cause_type(),
{
    match err {
        CluError::Fungus(f) => {
            T::lemma_wrapped_by_type(fungus_wrapped(f));
        },
        _ => {
            T::lemma_payload_by_type(err);
        },
    }
}

/// An error has one cause: it is not at once a value of two different types.
pub proof fn lemma_one_cause<S: Leaf, T: Leaf>(err: CluError)
    requires
        S::cause_type() != T::cause_type(),
    ensures
        !(err.cause::<S>() is Some && err.cause::<T>() is Some),
{
    lemma_cause_by_type::<S>(err);
    lemma_cause_by_type::<T>(err);
}

/// An error made from a component error has that very error as its cause, and is of no other
/// type `T`.
pub proof fn lemma_component_is_the_cause<T: Leaf>(e: ComponentError)
    ensures
        CluError::from_spec(e).cause::<ComponentError>() == Some(e),
        CluError::from_spec(e).cause_type() == CauseType::Component,
        T::cause_type() != CauseType::Component ==> CluError::from_spec(e).cause::<T>() is None,
{
    lemma_cause_by_type::<T>(CluError::from_spec(e));
}

/// An error made from an I/O error has that very error as its cause, and is of no other type
/// `T`.
pub proof fn lemma_io_is_the_cause<T: Leaf>(e: std::io::Error)
    ensures
        CluError::from_spec(e).cause::<std::io::Error>() == Some(e),
        CluError::from_spec(e).cause_type() == CauseType::Io,
        T::cause_type() != CauseType::Io ==> CluError::from_spec(e).cause::<T>() is None,
{
    lemma_cause_by_type::<T>(CluError::from_spec(e));
}

/// An error made from a `serde_yaml` error has that very error as its cause, and is of no
/// other type `T`.
pub proof fn lemma_yaml_is_the_cause<T: Leaf>(e: serde_yaml::Error)
    ensures
        CluError::from_spec(e).cause::<serde_yaml::Error>() == Some(e),
        CluError::from_spec(e).cause_type() == CauseType::SerdeYaml,
        T::cause_type() != CauseType::SerdeYaml ==> CluError::from_spec(e).cause::<T>() is None,
{
    lemma_cause_by_type::<T>(CluError::from_spec(e));
}

/// An error made from a `FuError` is seen through: where the `FuError` wraps the error `leaf`
/// of type `L`, the cause is `leaf` and its type is `L`, and the cause is of no other type `T`.
pub proof fn lemma_wrapped_is_the_cause<L: Leaf, T: Leaf>(f: FuError, leaf: L)
    requires
        L::wrapped(fungus_wrapped(f)) == Some(leaf),
    ensures
        CluError::from_spec(f).cause::<L>() == Some(leaf),
        CluError::from_spec(f).cause_type() == L::cause_type(),
        T::cause_type() != L::cause_type() ==> CluError::from_spec(f).cause::<T>() is None,
{
    lemma_cause_by_type::<L>(CluError::from_spec(f));
    lemma_cause_by_type::<T>(CluError::from_spec(f));
}

/// An error shows what the error it was made from shows, and nothing else.
pub proof fn lemma_shows_what_it_holds(
    component: ComponentError,
    io: std::io::Error,
    fungus: FuError,
    yaml: serde_yaml::Error,
    text: String,
)
    ensures
        CluError::from_spec(component).shows(text) <==> text@ == component@,
        CluError::from_spec(io).shows(text) <==> to_string_from_display_ensures::<std::io::Error>(
            &io,
            text,
        ),
        CluError::from_spec(fungus).shows(text) ==> to_string_from_display_ensures::<FuError>(
            &fungus,
            text,
        ),
        CluError::from_spec(yaml).shows(text) <==> to_string_from_display_ensures::<
            serde_yaml::Error,
        >(&yaml, text),
{
}

/// A change made through `downcast_mut` changes the cause and not its type: where the cause
/// was a `T` and a `T` was left, `is` answers for every type as it did before, and
/// `downcast_ref` hands out what was left.
pub proof fn lemma_change_keeps_the_type<T: Leaf>(before: CluError, after: CluError, left: T)
    requires
        before.cause::<T>() is Some,
        after.cause::<T>() == Some(left),
    ensures
        after.cause_type() == before.cause_type(),
        after.cause_type() == T::cause_type(),
{
    lemma_cause_by_type::<T>(before);
    lemma_cause_by_type::<T>(after);
}

/// An error that holds no `FuError` is known by its cause: it holds the cause and nothing else,
/// and shows what the cause shows. After a change made through `downcast_mut`, this is the
/// cause as the caller left it.
pub proof fn lemma_known_by_its_cause(
    err: CluError,
    component: ComponentError,
    io: std::io::Error,
    yaml: serde_yaml::Error,
    text: String,
)
    requires
        !(err is Fungus),
    ensures
        err.cause::<ComponentError>() == Some(component) ==> err == CluError::Component(component),
        err.cause::<ComponentError>() == Some(component) ==> (err.shows(text) <==> text@
            == component@),
        err.cause::<std::io::Error>() == Some(io) ==> err == CluError::Io(io),
        err.cause::<std::io::Error>() == Some(io) ==> (err.shows(text)
            <==> to_string_from_display_ensures::<std::io::Error>(&io, text)),
        err.cause::<serde_yaml::Error>() == Some(yaml) ==> err == CluError::SerdeYaml(yaml),
        err.cause::<serde_yaml::Error>() == Some(yaml) ==> (err.shows(text)
            <==> to_string_from_display_ensures::<serde_yaml::Error>(&yaml, text)),
{
}

/// An error that holds a `FuError` shows what the error wrapped in it shows. After a change
/// made through `downcast_mut`, this is the wrapped error as the caller left it.
pub proof fn lemma_wrapped_is_shown(f: FuError, text: String)
    ensures
        CluError::Fungus(f).shows(text) ==> fungus_wrapped(f).shows(text),
{
}

/// What lies behind an error that holds a `FuError` is what lies behind the error wrapped in
/// it: for a wrapped I/O error what lies behind that error when nothing wraps it, and for the
/// error types that `fungus` defines nothing.
pub proof fn lemma_wrapped_has_behind(f: FuError, io: std::io::Error, text: String)
    ensures
        fungus_wrapped(f) == WrappedError::Io(io) ==> CluError::Fungus(f).has_behind()
            == CluError::Io(io).has_behind(),
        fungus_wrapped(f) == WrappedError::Io(io) ==> CluError::Fungus(f).behind_shows(text)
            == CluError::Io(io).behind_shows(text),
        !(fungus_wrapped(f) is Io) && !(fungus_wrapped(f) is Other) ==> !CluError::Fungus(
            f,
        ).has_behind(),
{
}

/// A component error has nothing behind it.
pub proof fn lemma_nothing_behind_a_component(e: ComponentError)
    ensures
        !CluError::from_spec(e).has_behind(),
{
}

} // verus!
