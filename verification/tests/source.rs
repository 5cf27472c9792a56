use fungus::errors::{
    FileError, FuError, IterError, OsError, PathError, StringError, UserError,
};
use fungus::prelude::Regex;
use libclu::{CluError, ComponentError};
use std::error::Error;
use std::fmt;
use std::io;

/// An error that has another error behind it.
#[derive(Debug)]
struct Chained {
    behind: io::Error,
}

impl fmt::Display for Chained {
    fn fmt(&self, f: &mut fmt::Formatter<'_>) -> fmt::Result {
        f.write_str("chained")
    }
}

impl Error for Chained {
    fn source(&self) -> Option<&(dyn Error + 'static)> {
        Some(&self.behind)
    }
}

fn chained_io() -> io::Error {
    io::Error::new(
        io::ErrorKind::Other,
        Chained { behind: io::Error::new(io::ErrorKind::NotFound, "deep") },
    )
}

/// A reader that fails at once.
struct Failing;

impl io::Read for Failing {
    fn read(&mut self, _buf: &mut [u8]) -> io::Result<usize> {
        Err(chained_io())
    }
}

#[test]
fn component_error_has_nothing_behind_it() {
    let err = CluError::from(ComponentError::new("boom"));
    assert!(err.source().is_none());
}

#[test]
fn plain_io_error_has_nothing_behind_it() {
    let err = CluError::from(io::Error::new(io::ErrorKind::NotFound, "gone"));
    assert!(err.source().is_none());
    let err = CluError::from(io::Error::from(io::ErrorKind::NotFound));
    assert!(err.source().is_none());
}

#[test]
fn chained_io_error_has_its_source_behind_it() {
    let err = CluError::from(chained_io());
    assert_eq!("chained", err.to_string());
    assert_eq!(Some(String::from("deep")), err.source());
}

#[test]
fn wrapped_error_without_a_source_has_nothing_behind_it() {
    let err = CluError::from(FuError::from(FileError::FailedToExtractString));
    assert!(err.source().is_none());
}

#[test]
fn wrapped_errors_that_fungus_defines_have_nothing_behind_them() {
    assert!(CluError::from(FuError::from(IterError::ItemNotFound)).source().is_none());
    assert!(CluError::from(FuError::from(OsError::KernelReleaseNotFound)).source().is_none());
    assert!(CluError::from(FuError::from(PathError::Empty)).source().is_none());
    assert!(CluError::from(FuError::from(StringError::FailedToString)).source().is_none());
    assert!(CluError::from(FuError::from(UserError::DoesNotExistById(1))).source().is_none());
}

#[test]
fn wrapped_plain_io_error_has_nothing_behind_it() {
    let err = CluError::from(FuError::from(io::Error::new(io::ErrorKind::NotFound, "gone")));
    assert!(err.source().is_none());
}

#[test]
fn wrapped_error_of_an_unnamed_type_is_asked_through_the_wrapper() {
    let unparsed = Regex::new("(").unwrap_err();
    let expected = FuError::from(unparsed.clone()).source().map(|behind| behind.to_string());
    let err = CluError::from(FuError::from(unparsed));
    assert_eq!(expected, err.source());
}

#[test]
fn wrapped_chained_io_error_has_its_source_behind_it() {
    let err = CluError::from(FuError::from(chained_io()));
    assert_eq!(Some(String::from("deep")), err.source());
}

#[test]
fn parse_error_has_nothing_behind_it() {
    let err = CluError::from(serde_yaml::from_str::<u32>("not a number").unwrap_err());
    assert!(err.source().is_none());
}

#[test]
fn yaml_read_error_has_its_source_behind_it() {
    let err = CluError::from(serde_yaml::from_reader::<Failing, u32>(Failing).unwrap_err());
    assert_eq!("chained", err.to_string());
    assert_eq!(Some(String::from("deep")), err.source());
}
