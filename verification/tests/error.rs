use std::io;

use touch::{reclassify, Error, Operation};

fn refused() -> io::Error {
    io::Error::new(io::ErrorKind::PermissionDenied, "permission denied")
}

#[test]
fn operation_names() {
    assert_eq!(Operation::Create.name(), "create");
    assert_eq!(Operation::Delete.name(), "delete");
    assert_eq!(Operation::Read.name(), "read");
    assert_eq!(Operation::Write.name(), "write");
}

#[test]
fn message_composes_operation_and_path() {
    assert_eq!(Error::message(&Operation::Create, "/tmp/a"), "Unable to create /tmp/a");
    assert_eq!(Error::message(&Operation::Write, ""), "Unable to write ");
}

#[test]
fn new_has_message_and_no_cause() {
    let error = Error::new(&Operation::Read, "/tmp/a");
    assert_eq!(error.description(), "Unable to read /tmp/a");
    assert!(error.cause().is_none());
}

#[test]
fn with_cause_has_message_and_cause() {
    let error = Error::with_cause(&Operation::Delete, "/tmp/a", refused());
    assert_eq!(error.description(), "Unable to delete /tmp/a");
    // The cause comes back exactly as it was given.
    assert_eq!(error.cause().unwrap().kind(), io::ErrorKind::PermissionDenied);
}

#[test]
fn reclassify_turns_a_met_goal_into_success() {
    assert!(reclassify(true, &Operation::Create, "/tmp/a", refused()).is_ok());
}

#[test]
fn reclassify_surfaces_an_unmet_goal() {
    let error = reclassify(false, &Operation::Create, "/tmp/a", refused()).unwrap_err();
    assert_eq!(error.description(), "Unable to create /tmp/a");
    assert_eq!(error.cause().unwrap().kind(), io::ErrorKind::PermissionDenied);
}
