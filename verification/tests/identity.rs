use fungus::errors::{
    FileError, FuError, IterError, OsError, PathError, StringError, UserError,
};
use fungus::prelude::Regex;
use libclu::{CluError, ComponentError};
use std::io;

fn unparsed_yaml() -> serde_yaml::Error {
    serde_yaml::from_str::<u32>("not a number").unwrap_err()
}

#[test]
fn component_error_is_a_component_error_only() {
    let err = CluError::from(ComponentError::new("boom"));
    assert!(err.is::<ComponentError>());
    assert!(!err.is::<io::Error>());
    assert!(!err.is::<serde_yaml::Error>());
    assert!(!err.is::<FileError>());
    assert!(!err.is::<IterError>());
    assert!(!err.is::<OsError>());
    assert!(!err.is::<PathError>());
    assert!(!err.is::<StringError>());
    assert!(!err.is::<UserError>());
}

#[test]
fn io_error_is_an_io_error_only() {
    let err = CluError::from(io::Error::new(io::ErrorKind::NotFound, "gone"));
    assert!(err.is::<io::Error>());
    assert!(!err.is::<ComponentError>());
    assert!(!err.is::<serde_yaml::Error>());
    assert!(!err.is::<FileError>());
    assert!(!err.is::<PathError>());
}

#[test]
fn yaml_error_is_a_yaml_error_only() {
    let err = CluError::from(unparsed_yaml());
    assert!(err.is::<serde_yaml::Error>());
    assert!(!err.is::<ComponentError>());
    assert!(!err.is::<io::Error>());
    assert!(!err.is::<FileError>());
    assert!(!err.is::<UserError>());
}

#[test]
fn downcast_ref_hands_out_the_component_error() {
    let err = CluError::from(ComponentError::new("boom"));
    assert_eq!(
        Some(&ComponentError::new("boom")),
        err.downcast_ref::<ComponentError>()
    );
    assert!(err.downcast_ref::<io::Error>().is_none());
    assert!(err.downcast_ref::<serde_yaml::Error>().is_none());
    assert!(err.downcast_ref::<FileError>().is_none());
}

#[test]
fn downcast_ref_hands_out_the_io_error() {
    let err = CluError::from(io::Error::new(io::ErrorKind::NotFound, "gone"));
    let inner = err.downcast_ref::<io::Error>().unwrap();
    assert_eq!(io::ErrorKind::NotFound, inner.kind());
    assert_eq!("gone", inner.to_string());
    assert!(err.downcast_ref::<ComponentError>().is_none());
    assert!(err.downcast_ref::<PathError>().is_none());
}

#[test]
fn downcast_ref_hands_out_the_yaml_error() {
    let err = CluError::from(unparsed_yaml());
    let inner = err.downcast_ref::<serde_yaml::Error>().unwrap();
    assert_eq!(unparsed_yaml().to_string(), inner.to_string());
    assert!(err.downcast_ref::<io::Error>().is_none());
}

#[test]
fn downcast_ref_agrees_with_is() {
    let err = CluError::from(FuError::from(OsError::KernelVersionNotFound));
    assert_eq!(err.is::<OsError>(), err.downcast_ref::<OsError>().is_some());
    assert_eq!(err.is::<FileError>(), err.downcast_ref::<FileError>().is_some());
    assert_eq!(err.is::<io::Error>(), err.downcast_ref::<io::Error>().is_some());
    assert_eq!(
        err.is::<ComponentError>(),
        err.downcast_ref::<ComponentError>().is_some()
    );
}

#[test]
fn wrapped_path_error_is_seen_through_the_wrapper() {
    let err = CluError::from(FuError::from(PathError::Empty));
    assert!(err.is::<PathError>());
    assert_eq!(Some(&PathError::Empty), err.downcast_ref::<PathError>());
    assert!(!err.is::<FileError>());
    assert!(!err.is::<io::Error>());
    assert!(!err.is::<ComponentError>());
    assert!(!err.is::<serde_yaml::Error>());
}

#[test]
fn wrapped_errors_of_every_type_are_seen_through_the_wrapper() {
    let err = CluError::from(FuError::from(FileError::FailedToExtractString));
    assert_eq!(
        Some(&FileError::FailedToExtractString),
        err.downcast_ref::<FileError>()
    );
    let err = CluError::from(FuError::from(IterError::MultipleItemsFound));
    assert_eq!(
        Some(&IterError::MultipleItemsFound),
        err.downcast_ref::<IterError>()
    );
    assert!(!err.is::<FileError>());
    let err = CluError::from(FuError::from(OsError::KernelVersionNotFound));
    assert_eq!(
        Some(&OsError::KernelVersionNotFound),
        err.downcast_ref::<OsError>()
    );
    assert!(!err.is::<IterError>());
    let err = CluError::from(FuError::from(StringError::FailedToString));
    assert_eq!(
        Some(&StringError::FailedToString),
        err.downcast_ref::<StringError>()
    );
    assert!(!err.is::<OsError>());
    let err = CluError::from(FuError::from(UserError::DoesNotExistById(7)));
    assert_eq!(
        Some(&UserError::DoesNotExistById(7)),
        err.downcast_ref::<UserError>()
    );
    assert!(!err.is::<StringError>());
}

#[test]
fn wrapped_io_error_is_an_io_error() {
    let err = CluError::from(FuError::from(io::Error::new(
        io::ErrorKind::AlreadyExists,
        "foo",
    )));
    assert!(err.is::<io::Error>());
    let inner = err.downcast_ref::<io::Error>().unwrap();
    assert_eq!(io::ErrorKind::AlreadyExists, inner.kind());
    assert!(!err.is::<PathError>());
}

#[test]
fn wrapped_error_of_an_unnamed_type_is_none_of_the_named_types() {
    let unparsed = Regex::new("(").unwrap_err();
    let expected = unparsed.to_string();
    let err = CluError::from(FuError::from(unparsed));
    assert_eq!(expected, err.to_string());
    assert!(!err.is::<ComponentError>());
    assert!(!err.is::<io::Error>());
    assert!(!err.is::<serde_yaml::Error>());
    assert!(!err.is::<FileError>());
    assert!(!err.is::<IterError>());
    assert!(!err.is::<OsError>());
    assert!(!err.is::<PathError>());
    assert!(!err.is::<StringError>());
    assert!(!err.is::<UserError>());
    assert!(err.downcast_ref::<io::Error>().is_none());
}
