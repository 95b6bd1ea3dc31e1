use vstd::prelude::*;
use vstd::string::StringExecFns;

use crate::operation::Operation;

verus! {

/// The message every error carries: `Unable to {operation} {path}`.
pub open spec fn message_of(operation: Operation, path: Seq<char>) -> Seq<char> {
    "Unable to "@ + operation.spec_name() + " "@ + path
}

/// An operation failure: a composed human-readable message and, where the
/// platform reported one, the underlying cause.
///
/// An `Error` is built at the point of failure and never changed afterwards.
#[derive(Debug)]
pub struct Error {
    message: String,
    cause: Option<std::io::Error>,
}

/// `std::io::Error` is the platform's raw failure value; this crate only
/// carries it through, so it stays opaque.
#[verifier::external_type_specification]
#[verifier::external_body]
pub struct ExIoError(std::io::Error);

impl Error {
    /// The composed message this error carries.
    pub closed spec fn spec_message(&self) -> Seq<char> {
        self.message@
    }

    /// The underlying platform cause this error records, if any, preserved
    /// unchanged from construction.
    pub closed spec fn spec_cause(&self) -> Option<std::io::Error> {
        self.cause
    }

    /// Whether this error records an underlying platform cause.
    pub open spec fn spec_has_cause(&self) -> bool {
        self.spec_cause() is Some
    }

    /// Creates a new `Error` with the provided `Operation` on the given path.
    pub fn new(operation: &Operation, path: &str) -> (r: Self)
        ensures
            r.spec_message() == message_of(*operation, path@),
            r.spec_cause() is None,
    {
        Error { message: Self::message(operation, path), cause: None }
    }

    /// Creates a new `Error` with the provided `Operation` on the given path
    /// and specifies the upstream cause of the error, which is stored as it
    /// was given.
    pub fn with_cause(operation: &Operation, path: &str, cause: std::io::Error) -> (r: Self)
        ensures
            r.spec_message() == message_of(*operation, path@),
            r.spec_cause() == Some(cause),
    {
        Error { message: Self::message(operation, path), cause: Some(cause) }
    }

    /// Returns a reference to the upstream cause of this error if one exists:
    /// exactly the platform error given at construction, or nothing for an
    /// error built without one.
    pub fn cause(&self) -> (r: Option<&std::io::Error>)
        ensures
            r is Some <==> self.spec_has_cause(),
            r matches Some(c) ==> self.spec_cause() == Some(*c),
    {
        self.cause.as_ref()
    }

    /// Composes the message `Unable to {operation} {path}`.
    pub fn message(operation: &Operation, path: &str) -> (r: String)
        ensures
            r@ == message_of(*operation, path@),
    {
        let mut composed = "Unable to ".to_owned();
        composed.append(operation.name());
        composed.append(" ");
        composed.append(path);
        composed
    }

    /// The message this error carries.
    pub fn description(&self) -> (r: &str)
        ensures
            r@ == self.spec_message(),
    {
        self.message.as_str()
    }
}

} // verus!
