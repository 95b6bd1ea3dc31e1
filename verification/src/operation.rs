use vstd::prelude::*;

verus! {

/// The action that was being attempted when a failure occurred. Its only use
/// is composing the human-readable error message.
#[derive(Debug)]
pub enum Operation {
    Create,
    Delete,
    Read,
    Write,
}

impl Operation {
    /// The display word for this operation, as it appears in error messages.
    pub open spec fn spec_name(self) -> Seq<char> {
        match self {
            Operation::Create => "create"@,
            Operation::Delete => "delete"@,
            Operation::Read => "read"@,
            Operation::Write => "write"@,
        }
    }

    /// Returns the word naming this operation.
    pub fn name(&self) -> (r: &'static str)
        ensures
            r@ == self.spec_name(),
    {
        match self {
            Operation::Create => "create",
            Operation::Delete => "delete",
            Operation::Read => "read",
            Operation::Write => "write",
        }
    }
}

} // verus!

