//! The failures that workspace operations report.
use vstd::prelude::*;

verus! {

/// Why a workspace operation failed.
#[derive(Debug, Clone, Copy, PartialEq, Eq, Structural)]
pub enum TaskError {
    /// A task identifier, or a date a rule needs, is missing.
    NonexistentError,
    /// A metadata key is missing.
    NonexistentKeyError,
    /// The child is already attached to that parent.
    DuplicateError,
    /// A state the workspace's own bookkeeping rules out was reached.
    UnreachableError,
}

impl TaskError {
    /// The human-readable description of the error.
    pub open spec fn text(self) -> Seq<char> {
        match self {
            TaskError::DuplicateError => "Task already inserted"@,
            TaskError::NonexistentError => "Task doesn't exist"@,
            TaskError::NonexistentKeyError => "Metadata key doesn't exist"@,
            TaskError::UnreachableError => "You've somehow reached an unreachable state. Congrats?"@,
        }
    }

    /// Returns the human-readable description of the error.
    pub fn message(&self) -> (r: &'static str)
        ensures
            r@ == self.text(),
    {
        match self {
            TaskError::DuplicateError => "Task already inserted",
            TaskError::NonexistentError => "Task doesn't exist",
            TaskError::NonexistentKeyError => "Metadata key doesn't exist",
            TaskError::UnreachableError => "You've somehow reached an unreachable state. Congrats?",
        }
    }
}

} // verus!
