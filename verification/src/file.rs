//! Creation, reading, writing and deletion of single local files.
//!
//! As in [`crate::dir`], each operation is split around the platform calls
//! it may need: the functions here make every decision — short-circuits,
//! lazy creation of a missing parent directory, the handling of empty
//! content, and the tagging of each failure — while the caller performs the
//! platform calls they request and hands the outcomes back.

use vstd::prelude::*;

use crate::error::{message_of, Error};
use crate::operation::Operation;
use crate::path_exists;

verus! {

/// What the parent-directory derivation returns for a path: `None` when the
/// path has no parent, or the parent cannot be represented as text.
pub uninterp spec fn parent_of(path: Seq<char>) -> Option<Seq<char>>;

/// Relies on `std::path::Path::parent` and `OsStr::to_str`: the parent
/// directory of a path is a function of the path's characters alone.
#[verifier::external_body]
fn parent_dir(path: &str) -> (r: Option<String>)
    ensures
        r is Some <==> parent_of(path@) is Some,
        r matches Some(d) ==> parent_of(path@) == Some(d@),
{
    match std::path::Path::new(path).parent().and_then(|p| p.as_os_str().to_str()) {
        None => None,
        Some(d) => Some(d.to_string()),
    }
}

/// What remains to be done for a file creation, once decided.
#[derive(Debug)]
pub enum Creation {
    /// The file already exists and truncation was not requested: nothing to
    /// do, and no handle to hand out.
    Existing,
    /// Create (or truncate) the file, after first ensuring that `parent`
    /// exists as a directory.
    Touch { parent: String },
}

/// The decision core of file creation, over an explicit observation of
/// whether the file existed.
///
/// With `truncate` unset, an existing file is left alone. Otherwise the
/// file is to be created at `path`, under its parent directory; a path
/// whose parent cannot be derived, or cannot be represented as text, is
/// rejected with an error tagged as a read failure, since the path's
/// structure could not be interpreted.
pub fn plan(path: &str, truncate: bool, existed: bool) -> (r: Result<Creation, Error>)
    ensures
        r matches Ok(Creation::Existing) <==> (!truncate && existed),
        r is Err <==> ((truncate || !existed) && parent_of(path@) is None),
        r matches Err(e) ==> e.spec_message() == message_of(Operation::Read, path@)
            && !e.spec_has_cause(),
        r matches Ok(Creation::Touch { parent }) ==> parent_of(path@) == Some(parent@),
{
    if !truncate && existed {
        return Ok(Creation::Existing);
    }
    match parent_dir(path) {
        None => Err(Error::new(&Operation::Read, path)),
        Some(parent) => Ok(Creation::Touch { parent }),
    }
}

/// Creates the file indicated by the provided path. If truncate is `true`
/// and the file already exists, the file is overwritten.
///
/// Probes the filesystem for the file itself, then decides what remains to
/// be done: nothing for an existing file that is not to be truncated, and
/// otherwise a creation under the file's parent directory, which the caller
/// performs and resolves through [`create_finish`].
///
/// # Failures
/// Fails if no parent directory can be derived from the path, with an error
/// carrying the message `Unable to read {path}` and no cause.
pub fn create(path: &str, truncate: bool) -> (r: Result<Creation, Error>)
    ensures
        r matches Ok(Creation::Existing) ==> !truncate,
        r matches Err(e) ==> parent_of(path@) is None && e.spec_message() == message_of(
            Operation::Read,
            path@,
        ) && !e.spec_has_cause(),
        truncate && parent_of(path@) is None ==> r is Err,
        r matches Ok(Creation::Touch { parent }) ==> parent_of(path@) == Some(parent@),
{
    let existed = path_exists(path);
    plan(path, truncate, existed)
}

/// Resolves the platform's answer to the file creation requested by
/// [`create`]: a success stands, and a failure is reported as an error
/// tagged as a creation failure.
pub fn create_finish(path: &str, outcome: Result<(), std::io::Error>) -> (r: Result<(), Error>)
    ensures
        r is Ok <==> outcome is Ok,
        r matches Err(e) ==> outcome matches Err(c) && e.spec_cause() == Some(c)
            && e.spec_message() == message_of(Operation::Create, path@),
{
    match outcome {
        Ok(()) => Ok(()),
        Err(cause) => Err(Error::with_cause(&Operation::Create, path, cause)),
    }
}

/// Idempotently deletes the file indicated by the provided path.
///
/// `existed` is whether the file existed beforehand; `outcome` is the
/// platform's answer to removing it, made exactly when it existed. Deleting
/// an already-absent file is a success with no platform call at all. Unlike
/// directory deletion there is no re-check: removing a single file has no
/// partial success, so any platform failure is surfaced directly.
///
/// # Failures
/// Fails if the file cannot be deleted for any reason, with an error
/// carrying the message `Unable to delete {path}` and the platform's cause.
pub fn delete(path: &str, existed: bool, outcome: Option<Result<(), std::io::Error>>) -> (r: Result<
    (),
    Error,
>)
    requires
        existed <==> outcome is Some,
    ensures
        r is Ok <==> (!existed || (outcome matches Some(o) && o is Ok)),
        r matches Err(e) ==> outcome matches Some(Err(c)) && e.spec_cause() == Some(c)
            && e.spec_message() == message_of(Operation::Delete, path@),
{
    match outcome {
        None => Ok(()),
        Some(Ok(())) => Ok(()),
        Some(Err(cause)) => Err(Error::with_cause(&Operation::Delete, path, cause)),
    }
}

/// Resolves a read of the entire file at the provided path into a `String`.
///
/// `outcome` is what the platform answered to opening the file and reading
/// all of its content as text. A successful read is returned exactly as it
/// came; there is no existence short-circuit, since a missing file has no
/// sensible default content and must fail here.
///
/// # Failures
/// Fails if the file could not be opened, read, or decoded, with an error
/// carrying the message `Unable to read {path}` and the platform's cause.
pub fn read(path: &str, outcome: Result<String, std::io::Error>) -> (r: Result<String, Error>)
    ensures
        r is Ok <==> outcome is Ok,
        r matches Ok(content) ==> outcome matches Ok(c) && content@ == c@,
        r matches Err(e) ==> outcome matches Err(c) && e.spec_cause() == Some(c)
            && e.spec_message() == message_of(Operation::Read, path@),
{
    match outcome {
        Ok(content) => Ok(content),
        Err(cause) => Err(Error::with_cause(&Operation::Read, path, cause)),
    }
}

/// What remains to be done for a write, once decided.
#[derive(Debug)]
pub enum Writing {
    /// The content is empty: no filesystem action at all, not even a
    /// truncation of the target.
    Nothing,
    /// Create (or truncate) the file, after first ensuring that `parent`
    /// exists as a directory, then write the full content to it.
    Touch { parent: String },
}

/// The decision core of a write, over an explicit observation of whether
/// the file existed.
///
/// Empty content is a no-op success. Otherwise the write needs an open
/// handle to a newly created or truncated file; a file that already exists
/// and is not to be truncated yields no handle, so that case is rejected
/// outright as a creation failure rather than reported as success without a
/// write.
pub fn write_plan(path: &str, content: &str, truncate: bool, existed: bool) -> (r: Result<
    Writing,
    Error,
>)
    ensures
        r matches Ok(Writing::Nothing) <==> content@.len() == 0,
        r is Err <==> (content@.len() > 0 && ((!truncate && existed) || ((truncate || !existed)
            && parent_of(path@) is None))),
        r matches Err(e) ==> !e.spec_has_cause() && if !truncate && existed {
            e.spec_message() == message_of(Operation::Create, path@)
        } else {
            e.spec_message() == message_of(Operation::Read, path@)
        },
        r matches Ok(Writing::Touch { parent }) ==> content@.len() > 0 && (truncate || !existed)
            && parent_of(path@) == Some(parent@),
{
    if content.is_empty() {
        return Ok(Writing::Nothing);
    }
    match plan(path, truncate, existed)? {
        Creation::Existing => Err(Error::new(&Operation::Create, path)),
        Creation::Touch { parent } => Ok(Writing::Touch { parent }),
    }
}

/// Creates the file indicated by the provided path and writes the contents
/// if the content string is not empty. If truncate is `true` and the file
/// already exists, the file is overwritten.
///
/// Empty content returns success before any platform interaction, even the
/// existence probe: writing nothing is a no-op, not a truncation of the
/// target. Otherwise the filesystem is probed and the write planned by
/// [`write_plan`]; the caller performs the requested creation and write and
/// resolves the latter through [`write_finish`].
///
/// # Failures
/// Fails if the file already exists but may not be truncated (tagged as a
/// creation failure), or if no parent directory can be derived from the
/// path (tagged as a read failure).
pub fn write(path: &str, content: &str, truncate: bool) -> (r: Result<Writing, Error>)
    ensures
        r matches Ok(Writing::Nothing) <==> content@.len() == 0,
        r matches Err(e) ==> content@.len() > 0 && !e.spec_has_cause() && (e.spec_message()
            == message_of(Operation::Create, path@) || e.spec_message() == message_of(
            Operation::Read,
            path@,
        )),
        content@.len() > 0 && truncate && parent_of(path@) is Some ==> r is Ok,
        content@.len() > 0 && truncate && parent_of(path@) is None ==> r is Err,
        r matches Err(e) ==> (truncate ==> e.spec_message() == message_of(Operation::Read, path@)),
        (r matches Err(e) && e.spec_message() == message_of(Operation::Read, path@)) ==> parent_of(
            path@,
        ) is None,
        r matches Ok(Writing::Touch { parent }) ==> content@.len() > 0 && parent_of(path@)
            == Some(parent@),
{
    if content.is_empty() {
        return Ok(Writing::Nothing);
    }
    let existed = path_exists(path);
    let r = write_plan(path, content, truncate, existed);
    proof {
        // A creation-tagged and a read-tagged message never coincide: the
        // operation words differ in length.
        reveal_strlit("create");
        reveal_strlit("read");
        assert(message_of(Operation::Create, path@).len() != message_of(
            Operation::Read,
            path@,
        ).len());
    }
    r
}

/// Resolves the platform's answer to writing the full content to the file
/// created for [`write`]: a success stands, and a failure is reported as an
/// error tagged as a write failure.
pub fn write_finish(path: &str, outcome: Result<(), std::io::Error>) -> (r: Result<(), Error>)
    ensures
        r is Ok <==> outcome is Ok,
        r matches Err(e) ==> outcome matches Err(c) && e.spec_cause() == Some(c)
            && e.spec_message() == message_of(Operation::Write, path@),
{
    match outcome {
        Ok(()) => Ok(()),
        Err(cause) => Err(Error::with_cause(&Operation::Write, path, cause)),
    }
}

} // verus!
