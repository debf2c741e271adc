use maelstrom_node::protocol::errors::{ErrorKind, ErrorMessage};
use std::io::{Error, ErrorKind as IOErrorKind};

#[test]
fn test_display() {
    let err = ErrorMessage::new(ErrorKind::Crash, "something went wrong");
    assert_eq!("[13] something went wrong", err.to_string());

    let err = ErrorMessage::new(ErrorKind::Crash, "something went wrong")
        .with_source(Error::new(IOErrorKind::Other, "source error"));
    assert_eq!(
        "[13] something went wrong\nSource: source error",
        err.to_string()
    );
}

#[test]
fn every_kind_has_its_wire_code() {
    assert_eq!(usize::from(ErrorKind::Timeout), 0);
    assert_eq!(usize::from(ErrorKind::NodeNotFound), 1);
    assert_eq!(usize::from(ErrorKind::NotSupported), 10);
    assert_eq!(usize::from(ErrorKind::TemporarilyUnavailable), 11);
    assert_eq!(usize::from(ErrorKind::MalformedRequest), 12);
    assert_eq!(usize::from(ErrorKind::Crash), 13);
    assert_eq!(usize::from(ErrorKind::Abort), 14);
    assert_eq!(usize::from(ErrorKind::KeyDoesNotExist), 20);
    assert_eq!(usize::from(ErrorKind::KeyAlreadyExists), 21);
    assert_eq!(usize::from(ErrorKind::PreconditionFailed), 22);
    assert_eq!(usize::from(ErrorKind::TxnConflict), 30);
    assert_eq!(ErrorKind::TxnConflict.code(), 30);
}

#[test]
fn new_error_has_code_text_and_no_cause() {
    let err = ErrorMessage::new(ErrorKind::KeyDoesNotExist, "no such key");
    assert_eq!(err.code(), 20);
    assert_eq!(err.text(), "no such key");
    assert_eq!(err.cause(), None);
}

#[test]
fn cause_is_kept_as_text() {
    let err = ErrorMessage::new(ErrorKind::Abort, "stopped").with_cause("disk full");
    assert_eq!(err.code(), 14);
    assert_eq!(err.text(), "stopped");
    assert_eq!(err.cause(), Some("disk full"));
    assert_eq!(err.to_string(), "[14] stopped\nSource: disk full");
    let copy = err.clone();
    assert_eq!(copy.to_string(), "[14] stopped\nSource: disk full");
}

#[test]
fn code_zero_renders_as_one_digit() {
    let err = ErrorMessage::new(ErrorKind::Timeout, "late");
    assert_eq!(err.to_string(), "[0] late");
}
