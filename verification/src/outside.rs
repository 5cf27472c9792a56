//! The error types of other crates that a `CluError` carries, and everything that is taken on
//! trust about them. What the functions of this file promise is read off the source of those
//! crates and is not proved; the rest of the crate is proved from it.

use crate::leaf::{CauseType, Leaf};
use fungus::errors::{FileError, FuError, IterError, OsError, PathError, StringError, UserError};
use vstd::prelude::*;
use vstd::string::to_string_from_display_ensures;

verus! {

/// `std::io::Error`, carried as an opaque value.
#[verifier::external_type_specification]
#[verifier::external_body]
pub struct ExIoError(std::io::Error);

/// `serde_yaml::Error`, carried as an opaque value.
#[verifier::external_type_specification]
#[verifier::external_body]
pub struct ExYamlError(serde_yaml::Error);

/// `fungus::errors::FuError`, carried as an opaque value.
#[verifier::external_type_specification]
#[verifier::external_body]
pub struct ExFuError(FuError);

/// `fungus::errors::FileError`, carried as an opaque value.
#[verifier::external_type_specification]
#[verifier::external_body]
pub struct ExFileError(FileError);

/// `fungus::errors::IterError`, carried as an opaque value.
#[verifier::external_type_specification]
#[verifier::external_body]
pub struct ExIterError(IterError);

/// `fungus::errors::OsError`, carried as an opaque value.
#[verifier::external_type_specification]
#[verifier::external_body]
pub struct ExOsError(OsError);

/// `fungus::errors::PathError`, carried as an opaque value.
#[verifier::external_type_specification]
#[verifier::external_body]
pub struct ExPathError(PathError);

/// `fungus::errors::StringError`, carried as an opaque value.
#[verifier::external_type_specification]
#[verifier::external_body]
pub struct ExStringError(StringError);

/// `fungus::errors::UserError`, carried as an opaque value.
#[verifier::external_type_specification]
#[verifier::external_body]
pub struct ExUserError(UserError);

/// What a `FuError` wraps, as far as this library can name it.
///
/// `FuError` is an enum with one error in each variant. Seven of those error types can be asked
/// for here; an error of any of the remaining types is seen as `Other`.
pub enum WrappedError {
    File(FileError),
    Io(std::io::Error),
    Iter(IterError),
    Os(OsError),
    Path(PathError),
    String(StringError),
    User(UserError),
    Other,
}

impl WrappedError {
    /// The type of the wrapped error.
    pub open spec fn cause_type(self) -> CauseType {
        match self {
            WrappedError::File(_) => CauseType::File,
            WrappedError::Io(_) => CauseType::Io,
            WrappedError::Iter(_) => CauseType::Iter,
            WrappedError::Os(_) => CauseType::Os,
            WrappedError::Path(_) => CauseType::Path,
            WrappedError::String(_) => CauseType::String,
            WrappedError::User(_) => CauseType::User,
            WrappedError::Other => CauseType::Other,
        }
    }

    /// Whether `text` is what the wrapped error shows. Of an error that this library cannot
    /// name, nothing is said.
    pub open spec fn shows(self, text: String) -> bool {
        match self {
            WrappedError::File(e) => to_string_from_display_ensures::<FileError>(&e, text),
            WrappedError::Io(e) => to_string_from_display_ensures::<std::io::Error>(&e, text),
            WrappedError::Iter(e) => to_string_from_display_ensures::<IterError>(&e, text),
            WrappedError::Os(e) => to_string_from_display_ensures::<OsError>(&e, text),
            WrappedError::Path(e) => to_string_from_display_ensures::<PathError>(&e, text),
            WrappedError::String(e) => to_string_from_display_ensures::<StringError>(&e, text),
            WrappedError::User(e) => to_string_from_display_ensures::<UserError>(&e, text),
            WrappedError::Other => true,
        }
    }

    /// Whether the wrapped error has another error behind it. A wrapped I/O error has behind
    /// it what it has when nothing wraps it, and the error types that `fungus` defines have
    /// nothing behind them; `unnamed` says it of an error that this library cannot name.
    pub open spec fn has_behind(self, unnamed: bool) -> bool {
        match self {
            WrappedError::Io(e) => io_has_source(e),
            WrappedError::Other => unnamed,
            _ => false,
        }
    }

    /// Whether `text` is what the error behind the wrapped error shows; `unnamed` says it of
    /// an error that this library cannot name.
    pub open spec fn behind_shows(self, text: Seq<char>, unnamed: bool) -> bool {
        match self {
            WrappedError::Io(e) => io_source_shows(e, text),
            WrappedError::Other => unnamed,
            _ => false,
        }
    }
}

/// The error that `f` wraps: the one in its variant.
pub uninterp spec fn fungus_wrapped(f: FuError) -> WrappedError;

/// Whether `FuError::source` finds an error behind the one that `f` wraps.
pub uninterp spec fn fungus_has_source(f: FuError) -> bool;

/// Whether `text` is what the error shows that `FuError::source` finds behind the one that `f`
/// wraps.
pub uninterp spec fn fungus_source_shows(f: FuError, text: Seq<char>) -> bool;

/// Whether `source` finds an error behind `e`.
pub uninterp spec fn io_has_source(e: std::io::Error) -> bool;

/// Whether `text` is what the error shows that `source` finds behind `e`.
pub uninterp spec fn io_source_shows(e: std::io::Error, text: Seq<char>) -> bool;

/// Whether `source` finds an error behind `e`.
pub uninterp spec fn yaml_has_source(e: serde_yaml::Error) -> bool;

/// Whether `text` is what the error shows that `source` finds behind `e`.
pub uninterp spec fn yaml_source_shows(e: serde_yaml::Error, text: Seq<char>) -> bool;

/// Whether `text` is what `f` shows: what its own `Display` writes, which is what the error
/// that it wraps shows.
pub open spec fn fungus_shows(f: FuError, text: String) -> bool {
    to_string_from_display_ensures::<FuError>(&f, text) && fungus_wrapped(f).shows(text)
}

/// Whether the error that `f` wraps has another error behind it.
pub open spec fn fungus_has_behind(f: FuError) -> bool {
    fungus_wrapped(f).has_behind(fungus_has_source(f))
}

/// Whether `text` is what the error behind the one that `f` wraps shows.
pub open spec fn fungus_behind_shows(f: FuError, text: Seq<char>) -> bool {
    fungus_wrapped(f).behind_shows(text, fungus_source_shows(f, text))
}

/// Calls `FuError::downcast_ref`.
///
/// Taken on trust: the result is a reference to the error in the variant of `f` where that
/// error is a `T`, and `None` where it is of another type. `T::wrapped` says which variant
/// holds a `T`; this holds for the types that implement `Leaf` in this crate, each of which
/// picks the variant of its own type.
#[verifier::external_body]
pub(crate) fn fungus_downcast_ref<T: Leaf + std::error::Error + 'static>(
    f: &FuError,
) -> (r: Option<&T>)
    ensures
        r matches Some(e) ==> T::wrapped(fungus_wrapped(*f)) == Some(*e),
        r is None ==> T::wrapped(fungus_wrapped(*f)) is None,
{
    f.downcast_ref::<T>()
}

/// Calls `FuError::downcast_mut`.
///
/// Taken on trust: as for `downcast_ref`, and the reference points into `f`, so that what the
/// caller leaves behind it is the error that `f` wraps afterwards, in the same variant. Where
/// the result is `None`, `f` is not changed.
#[verifier::external_body]
pub(crate) fn fungus_downcast_mut<T: Leaf + std::error::Error + 'static>(
    f: &mut FuError,
) -> (r: Option<&mut T>)
    ensures
        r matches Some(e) ==> T::wrapped(fungus_wrapped(*old(f))) == Some(*e),
        r matches Some(e) ==> T::wrapped(fungus_wrapped(*final(f))) == Some(*final(e)),
        r is None ==> T::wrapped(fungus_wrapped(*old(f))) is None,
        r is None ==> *final(f) == *old(f),
{
    f.downcast_mut::<T>()
}

/// Calls `to_string` on a `FuError`, which writes it with its `Display`.
///
/// Taken on trust: in every variant that `Display` writes the error in the variant with the
/// `Display` of that error and adds nothing, so the text is the text of the wrapped error.
#[verifier::external_body]
pub(crate) fn fungus_to_string(f: &FuError) -> (text: String)
    ensures
        fungus_shows(*f, text),
{
    f.to_string()
}

/// Calls `FuError::source` and hands out what it finds as the text that it shows.
///
/// Taken on trust: `FuError::source` asks the wrapped error for its `source`. So for a wrapped
/// I/O error the answer is the one that `std::io::Error` gives, and for the error types that
/// `fungus` defines, which have no `source` of their own, it is `None`. For a wrapped error of
/// any other type, whether something is found depends on nothing but `f`. Of the text nothing
/// is claimed but that it is the text of what was found.
#[verifier::external_body]
pub(crate) fn fungus_source_text(f: &FuError) -> (r: Option<String>)
    ensures
        r is Some <==> fungus_wrapped(*f).has_behind(fungus_has_source(*f)),
        r matches Some(text) ==> fungus_wrapped(*f).behind_shows(
            text@,
            fungus_source_shows(*f, text@),
        ),
{
    f.source().map(|behind| behind.to_string())
}

/// Calls `std::error::Error::source` on a `std::io::Error` and hands out what it finds as the
/// text that it shows.
///
/// Taken on trust: whether it finds an error depends on nothing but `e`. Of the text nothing is
/// claimed but that it is the text of what was found.
#[verifier::external_body]
pub(crate) fn io_source_text(e: &std::io::Error) -> (r: Option<String>)
    ensures
        r is Some <==> io_has_source(*e),
        r matches Some(text) ==> io_source_shows(*e, text@),
{
    std::error::Error::source(e).map(|behind| behind.to_string())
}

/// Calls `std::error::Error::source` on a `serde_yaml::Error` and hands out what it finds as
/// the text that it shows.
///
/// Taken on trust: whether it finds an error depends on nothing but `e`. Of the text nothing is
/// claimed but that it is the text of what was found.
#[verifier::external_body]
pub(crate) fn yaml_source_text(e: &serde_yaml::Error) -> (r: Option<String>)
    ensures
        r is Some <==> yaml_has_source(*e),
        r matches Some(text) ==> yaml_source_shows(*e, text@),
{
    std::error::Error::source(e).map(|behind| behind.to_string())
}

} // verus!
