//! Idempotent, recursive creation and deletion of local directories.
//!
//! Each operation is split in two around the single platform call it may
//! need. The caller first probes [`crate::path_exists`] and, exactly when the
//! probe says a call is needed, performs the platform's recursive create or
//! remove; it then hands both observations in. Everything else — the
//! short-circuit on paths already in the desired state, the re-check that
//! reclassifies a failed call whose goal was reached anyway, and the
//! composition of the reported error — happens here.

use vstd::prelude::*;

use crate::error::{message_of, Error};
use crate::operation::Operation;
use crate::{path_exists, reclassify};

verus! {

/// Recursively creates the directory indicated by the provided path if it
/// does not exist, otherwise it short circuits and returns immediately.
///
/// `existed` is whether the path existed before anything was attempted;
/// `outcome` is the platform's answer to a recursive creation, made exactly
/// when the path did not exist. A failed creation is reported only when the
/// path still does not exist afterwards: a benign race that left the
/// directory in place counts as success.
///
/// # Failures
/// Fails if the directory cannot be created for any reason, with an error
/// carrying the message `Unable to create {path}` and the platform's cause.
pub fn create(path: &str, existed: bool, outcome: Option<Result<(), std::io::Error>>) -> (r: Result<
    (),
    Error,
>)
    requires
        existed <==> outcome is None,
    ensures
        existed ==> r is Ok,
        (outcome matches Some(o) && o is Ok) ==> r is Ok,
        r matches Err(e) ==> {
            &&& outcome matches Some(Err(c)) && e.spec_cause() == Some(c)
            &&& e.spec_message() == message_of(Operation::Create, path@)
        },
{
    match outcome {
        None => Ok(()),
        Some(Ok(())) => Ok(()),
        Some(Err(cause)) => reclassify(path_exists(path), &Operation::Create, path, cause),
    }
}

/// Idempotently deletes the directory indicated by the provided path.
///
/// `existed` is whether the path existed before anything was attempted;
/// `outcome` is the platform's answer to a recursive removal, made exactly
/// when the path existed. Deleting an already-absent path is a success with
/// no platform call at all, and a failed removal is reported only when the
/// path still exists afterwards.
///
/// # Failures
/// Fails if the directory cannot be deleted for any reason, with an error
/// carrying the message `Unable to delete {path}` and the platform's cause.
pub fn delete(path: &str, existed: bool, outcome: Option<Result<(), std::io::Error>>) -> (r: Result<
    (),
    Error,
>)
    requires
        existed <==> outcome is Some,
    ensures
        !existed ==> r is Ok,
        (outcome matches Some(o) && o is Ok) ==> r is Ok,
        r matches Err(e) ==> {
            &&& outcome matches Some(Err(c)) && e.spec_cause() == Some(c)
            &&& e.spec_message() == message_of(Operation::Delete, path@)
        },
{
    match outcome {
        None => Ok(()),
        Some(Ok(())) => Ok(()),
        Some(Err(cause)) => {
            let gone = !path_exists(path);
            reclassify(gone, &Operation::Delete, path, cause)
        },
    }
}

} // verus!
