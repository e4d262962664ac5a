//! The ways in which an operation of the orchestration core can fail.

use vstd::prelude::*;

verus! {

/// Why an operation was refused or did not succeed.
#[derive(Clone, Copy, Debug, PartialEq, Eq, Structural)]
pub enum ManagerError {
    /// The job, its section or its event channel is absent.
    NotFound,
    /// The job or section is not in a state that admits the operation.
    Conflict,
    /// The content generator failed.
    UpstreamFailure,
    /// The persistence store failed.
    PersistenceFailure,
    /// The unit of work was terminated.
    Cancelled,
}

impl ManagerError {
    /// A short text for the error.
    pub open spec fn text(self) -> Seq<char> {
        match self {
            ManagerError::NotFound => "not found"@,
            ManagerError::Conflict => "conflict"@,
            ManagerError::UpstreamFailure => "upstream failure"@,
            ManagerError::PersistenceFailure => "persistence failure"@,
            ManagerError::Cancelled => "cancelled"@,
        }
    }

    /// A short text for the error.
    pub fn message(self) -> (s: String)
        ensures
            s@ == self.text(),
    {
        match self {
            ManagerError::NotFound => "not found".to_string(),
            ManagerError::Conflict => "conflict".to_string(),
            ManagerError::UpstreamFailure => "upstream failure".to_string(),
            ManagerError::PersistenceFailure => "persistence failure".to_string(),
            ManagerError::Cancelled => "cancelled".to_string(),
        }
    }
}

} // verus!
