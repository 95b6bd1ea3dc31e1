//! A dead simple wrapper around file and directory manipulation.
//!
//! Every operation is an idempotent "ensure this path is in the desired
//! state" step: creating an existing directory, or deleting an absent file
//! or directory, is a success, not an error. A platform failure is wrapped
//! into an [`Error`] carrying a composed message and the underlying cause —
//! except where a re-check shows the desired end state was reached anyway,
//! in which case the failure is reclassified as success.
//!
//! The platform calls themselves (recursive directory creation and removal,
//! file creation, reading and writing) are performed by the embedding
//! program; this library holds every decision around them: when to
//! short-circuit, when to re-check, which step comes next, and how each
//! failure is reported.

use vstd::prelude::*;

pub mod dir;
pub mod file;

mod error;
mod operation;

pub use error::Error;
pub use operation::Operation;

use error::message_of;

verus! {

/// Returns whether or not the file at the provided path exists.
///
/// Relies on `std::path::Path::exists`: the answer depends on the state of
/// the disk at the moment of the call, so nothing is promised of it. Any
/// platform-level query error is reported as "does not exist".
#[verifier::external_body]
pub fn path_exists(path: &str) -> bool {
    std::path::Path::new(path).exists()
}

/// Post-condition re-check: turns a failed platform call into the result the
/// caller reports. `goal_met` says whether the end state the caller was
/// after holds despite the failure (the path exists for a creation, is gone
/// for a deletion); exactly then the failure is reclassified as success.
pub fn reclassify(goal_met: bool, operation: &Operation, path: &str, cause: std::io::Error) -> (r: Result<
    (),
    Error,
>)
    ensures
        r is Ok <==> goal_met,
        r matches Err(e) ==> e.spec_message() == message_of(*operation, path@)
            && e.spec_cause() == Some(cause),
{
    if goal_met {
        Ok(())
    } else {
        Err(Error::with_cause(operation, path, cause))
    }
}

} // verus!
