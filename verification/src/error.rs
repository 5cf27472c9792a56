//! The unified error and the four questions that can be put to it.

use crate::cause::Cause;
use crate::component::ComponentError;
use crate::laws::lemma_cause_by_type;
use crate::leaf::{CauseType, Leaf};
use crate::outside::{
    fungus_behind_shows, fungus_has_behind, fungus_shows, fungus_source_text, fungus_to_string,
    fungus_wrapped, io_has_source, io_source_shows, io_source_text, yaml_has_source,
    yaml_source_shows, yaml_source_text,
};
use fungus::errors::FuError;
use vstd::prelude::*;
use vstd::std_specs::convert::FromSpecImpl;
use vstd::string::to_string_from_display_ensures;

verus! {

/// A result whose error is a [`CluError`].
pub type CluResult<T> = Result<T, CluError>;

/// Any error that this library hands to its callers: exactly one error of one of four origins,
/// kept as it was reported.
#[derive(Debug)]
pub enum CluError {
    /// An error of a component.
    Component(ComponentError),
    /// An error of the operating system's I/O.
    Io(std::io::Error),
    /// An error of the `fungus` crate, which itself wraps the error that occurred.
    Fungus(FuError),
    /// An error of the `serde_yaml` crate.
    SerdeYaml(serde_yaml::Error),
}

impl CluError {
    /// The cause of this error as a `T`, or `None` where the cause is of another type.
    ///
    /// The cause of a `Component`, `Io` or `SerdeYaml` error is the error it holds. The cause of
    /// a `Fungus` error is not the `FuError` it holds but the error which that one wraps.
    pub open spec fn cause<T: Leaf>(self) -> Option<T> {
        match self {
            CluError::Fungus(err) => T::wrapped(fungus_wrapped(err)),
            _ => T::payload(self),
        }
    }

    /// The type of the cause of this error.
    pub open spec fn cause_type(self) -> CauseType {
        match self {
            CluError::Component(_) => CauseType::Component,
            CluError::Io(_) => CauseType::Io,
            CluError::Fungus(err) => fungus_wrapped(err).cause_type(),
            CluError::SerdeYaml(_) => CauseType::SerdeYaml,
        }
    }

    /// Whether `text` is what this error shows: the text of the error it holds, with nothing
    /// added.
    pub open spec fn shows(self, text: String) -> bool {
        match self {
            CluError::Component(err) => text@ == err@,
            CluError::Io(err) => to_string_from_display_ensures::<std::io::Error>(&err, text),
            CluError::Fungus(err) => fungus_shows(err, text),
            CluError::SerdeYaml(err) => to_string_from_display_ensures::<serde_yaml::Error>(
                &err,
                text,
            ),
        }
    }

    /// Whether the cause of this error has another error behind it.
    pub open spec fn has_behind(self) -> bool {
        match self {
            CluError::Component(_) => false,
            CluError::Io(err) => io_has_source(err),
            CluError::Fungus(err) => fungus_has_behind(err),
            CluError::SerdeYaml(err) => yaml_has_source(err),
        }
    }

    /// Whether `text` is what the error behind the cause of this one shows.
    pub open spec fn behind_shows(self, text: String) -> bool {
        match self {
            CluError::Component(_) => false,
            CluError::Io(err) => io_source_shows(err, text@),
            CluError::Fungus(err) => fungus_behind_shows(err, text@),
            CluError::SerdeYaml(err) => yaml_source_shows(err, text@),
        }
    }

    /// Whether the cause of this error is a `T`.
    pub fn is<T: Cause>(&self) -> (b: bool)
        ensures
            b == (self.cause_type() == T::cause_type()),
            b == self.cause::<T>().is_some(),
    {
        proof {
            lemma_cause_by_type::<T>(*self);
        }
        self.downcast_ref::<T>().is_some()
    }

    /// The cause of this error, if it is a `T`.
    pub fn downcast_ref<T: Cause>(&self) -> (r: Option<&T>)
        ensures
            r matches Some(c) ==> self.cause::<T>() == Some(*c),
            r is None ==> self.cause::<T>() is None,
    {
        match self {
            CluError::Fungus(err) => T::wrapped_ref(err),
            _ => T::payload_ref(self),
        }
    }

    /// The cause of this error, if it is a `T`, to be changed in place. What the caller leaves
    /// behind the reference is the cause afterwards.
    pub fn downcast_mut<T: Cause>(&mut self) -> (r: Option<&mut T>)
        ensures
            r matches Some(c) ==> old(self).cause::<T>() == Some(*c),
            r matches Some(c) ==> final(self).cause::<T>() == Some(*final(c)),
            r is None ==> old(self).cause::<T>() is None,
            r is None ==> *final(self) == *old(self),
            *final(self) is Fungus <==> *old(self) is Fungus,
    {
        match self {
            CluError::Fungus(err) => T::wrapped_mut(err),
            _ => T::payload_mut(self),
        }
    }

    /// The error that lies behind the cause of this one, as the text that it shows; `None`
    /// exactly where the cause has nothing behind it.
    pub fn source(&self) -> (r: Option<String>)
        ensures
            r is Some <==> self.has_behind(),
            r matches Some(text) ==> self.behind_shows(text),
    {
        match self {
            CluError::Component(_) => None,
            CluError::Io(err) => io_source_text(err),
            CluError::Fungus(err) => fungus_source_text(err),
            CluError::SerdeYaml(err) => yaml_source_text(err),
        }
    }

    /// The text that this error shows.
    pub fn to_string(&self) -> (text: String)
        ensures
            self.shows(text),
    {
        match self {
            CluError::Component(err) => err.to_string(),
            CluError::Io(err) => err.to_string(),
            CluError::Fungus(err) => fungus_to_string(err),
            CluError::SerdeYaml(err) => err.to_string(),
        }
    }
}

impl From<ComponentError> for CluError {
    fn from(err: ComponentError) -> (r: CluError) {
        CluError::Component(err)
    }
}

impl FromSpecImpl<ComponentError> for CluError {
    open spec fn obeys_from_spec() -> bool {
        true
    }

    open spec fn from_spec(err: ComponentError) -> CluError {
        CluError::Component(err)
    }
}

impl From<std::io::Error> for CluError {
    fn from(err: std::io::Error) -> (r: CluError) {
        CluError::Io(err)
    }
}

impl FromSpecImpl<std::io::Error> for CluError {
    open spec fn obeys_from_spec() -> bool {
        true
    }

    open spec fn from_spec(err: std::io::Error) -> CluError {
        CluError::Io(err)
    }
}

impl From<FuError> for CluError {
    fn from(err: FuError) -> (r: CluError) {
        CluError::Fungus(err)
    }
}

impl FromSpecImpl<FuError> for CluError {
    open spec fn obeys_from_spec() -> bool {
        true
    }

    open spec fn from_spec(err: FuError) -> CluError {
        CluError::Fungus(err)
    }
}

impl From<serde_yaml::Error> for CluError {
    fn from(err: serde_yaml::Error) -> (r: CluError) {
        CluError::SerdeYaml(err)
    }
}

impl FromSpecImpl<serde_yaml::Error> for CluError {
    open spec fn obeys_from_spec() -> bool {
        true
    }

    open spec fn from_spec(err: serde_yaml::Error) -> CluError {
        CluError::SerdeYaml(err)
    }
}

} // verus!
