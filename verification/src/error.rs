//! The ways in which an operation on payment records can fail.

use vstd::prelude::*;
use vstd::string::StringExecFns;

verus! {

/// Why an operation failed.
#[derive(Clone, Copy, Debug, PartialEq, Eq, Structural)]
pub enum StoreError {
    /// No record matches the key. The lag poller takes this as "not yet
    /// visible".
    NotFound,
    /// The backend could not be read.
    BackendReadError,
    /// The backend could not be written.
    BackendWriteError,
    /// The peer cell could not be told of a write.
    PeerUnreachable,
    /// A lag probe used up its retries.
    RetryBudgetExhausted,
}

impl StoreError {
    /// The text that describes the error.
    pub open spec fn spec_message(self) -> Seq<char> {
        match self {
            StoreError::NotFound => "no record found"@,
            StoreError::BackendReadError => "backend read failed"@,
            StoreError::BackendWriteError => "backend write failed"@,
            StoreError::PeerUnreachable => "peer cell unreachable"@,
            StoreError::RetryBudgetExhausted => "retry budget exhausted"@,
        }
    }

    /// The text that describes the error.
    pub fn message(&self) -> (s: String)
        ensures
            s@ == self.spec_message(),
    {
        match self {
            StoreError::NotFound => String::from_str("no record found"),
            StoreError::BackendReadError => String::from_str("backend read failed"),
            StoreError::BackendWriteError => String::from_str("backend write failed"),
            StoreError::PeerUnreachable => String::from_str("peer cell unreachable"),
            StoreError::RetryBudgetExhausted => String::from_str("retry budget exhausted"),
        }
    }
}

/// Whether an operation reads from the backend or writes to it.
#[derive(Clone, Copy, Debug, PartialEq, Eq, Structural)]
pub enum OperationKind {
    Read,
    Write,
}

/// The error of an operation whose backend failed: a read error for a read,
/// a write error for a write.
pub fn backend_failure(kind: OperationKind) -> (e: StoreError)
    ensures
        e == match kind {
            OperationKind::Read => StoreError::BackendReadError,
            OperationKind::Write => StoreError::BackendWriteError,
        },
{
    match kind {
        OperationKind::Read => StoreError::BackendReadError,
        OperationKind::Write => StoreError::BackendWriteError,
    }
}

} // verus!
