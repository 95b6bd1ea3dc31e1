use std::io;

use touch::dir::{create, delete};
use touch::path_exists;

fn refused() -> io::Error {
    io::Error::new(io::ErrorKind::PermissionDenied, "permission denied")
}

#[test]
fn dir_it_returns_ok() {
    // A path that already exists: success with no platform call at all.
    assert!(path_exists("/"));
    assert!(create("/", true, None).is_ok());
}

#[test]
fn dir_it_returns_err() {
    // The platform refused and the directory still does not exist: the
    // failure is surfaced.
    let path = "/restricted";
    assert!(!path_exists(path));
    assert!(create(path, false, Some(Err(refused()))).is_err());
}

#[test]
fn it_returns_ok_and_creates_parent() {
    // Arrange
    let parent = "/tmp/parent";
    assert!(!path_exists(parent));
    let dir = &format!("{}/child", parent);
    assert!(!path_exists(dir));

    // Act / Assert: a recursive creation the platform accepted.
    assert!(create(dir, false, Some(Ok(()))).is_ok());

    // Cleanup: the path was never really created, so deletion short-circuits.
    assert!(delete(parent, false, None).is_ok());
}

#[test]
fn create_twice_returns_ok_both_times() {
    // Idempotence: the first call creates, the second finds the directory in
    // place and succeeds without requesting any further platform work.
    let dir = "/tmp/idempotent";
    assert!(create(dir, false, Some(Ok(()))).is_ok());
    assert!(create(dir, true, None).is_ok());
}

#[test]
fn delete_absent_returns_ok_without_removal() {
    // Idempotence: deleting an already-absent directory succeeds, and the
    // protocol admits no removal call for it.
    let dir = "/tmp/never_created";
    assert!(!path_exists(dir));
    assert!(delete(dir, false, None).is_ok());
}

#[test]
fn create_failure_carries_message_and_cause() {
    let path = "/restricted";
    assert!(!path_exists(path));
    let error = create(path, false, Some(Err(refused()))).unwrap_err();
    assert_eq!(error.description(), "Unable to create /restricted");
    assert!(error.cause().is_some());
}

#[test]
fn delete_failure_carries_message_and_cause() {
    // The directory still exists after a failed removal: the failure stands.
    let path = "/";
    assert!(path_exists(path));
    let error = delete(path, true, Some(Err(refused()))).unwrap_err();
    assert_eq!(error.description(), "Unable to delete /");
    assert!(error.cause().is_some());
}

#[test]
fn delete_reclassifies_failure_when_path_is_gone() {
    // The platform reported a failure, but the directory is gone: success.
    let path = "/tmp/already_gone";
    assert!(!path_exists(path));
    assert!(delete(path, true, Some(Err(refused()))).is_ok());
}
