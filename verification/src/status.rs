//! The failure taxonomy of the transaction script and the fixed-width status
//! codes that the boundary entry point reports to the untrusted caller.

use vstd::prelude::*;

verus! {

/// The kinds of internal failure that the transaction script can report.
#[derive(Clone, Copy, PartialEq, Eq, Structural, Debug)]
pub enum ErrorKind {
    /// The relational engine rejected a statement or malfunctioned.
    Storage,
    /// A cursor yielded a row where none was expected.
    ProtocolViolation,
    /// An affected-row count, a generated identifier or a column value
    /// deviated from the script's stated postcondition.
    UnexpectedState,
    /// The select step produced no row at all.
    MissingRow,
    /// A required column was absent.
    UnexpectedNull,
}

/// The status values recognised at the boundary: success, a caller-side
/// buffer risk, and one value for each internal failure kind.
#[derive(Clone, Copy, PartialEq, Eq, Structural, Debug)]
pub enum Status {
    /// The transaction script ran to completion and met every postcondition.
    Success,
    /// The caller-supplied buffer description could not even be copied
    /// safely (for instance a null base address with a non-zero length).
    /// Raised by the untrusted-facing shim, never from inside the core.
    BufferRisk,
    /// An operation on the relational store failed.
    StorageFailure,
    /// A cursor yielded a row where none was expected.
    ProtocolViolation,
    /// A script postcondition on counts, identifiers or values was violated.
    UnexpectedState,
    /// The select step produced no row.
    MissingRow,
    /// A required column was absent.
    UnexpectedNull,
}

/// The fixed-width code that stands for each status at the boundary.
pub open spec fn code_of(s: Status) -> u32 {
    match s {
        Status::Success => 0,
        Status::BufferRisk => 1,
        Status::StorageFailure => 2,
        Status::ProtocolViolation => 3,
        Status::UnexpectedState => 4,
        Status::MissingRow => 5,
        Status::UnexpectedNull => 6,
    }
}

/// The status that reports a given internal failure kind.
pub open spec fn status_of_kind(k: ErrorKind) -> Status {
    match k {
        ErrorKind::Storage => Status::StorageFailure,
        ErrorKind::ProtocolViolation => Status::ProtocolViolation,
        ErrorKind::UnexpectedState => Status::UnexpectedState,
        ErrorKind::MissingRow => Status::MissingRow,
        ErrorKind::UnexpectedNull => Status::UnexpectedNull,
    }
}

impl Status {
    /// The fixed-width code returned across the boundary.
    pub fn code(&self) -> (c: u32)
        ensures
            c == code_of(*self),
    {
        match self {
            Status::Success => 0,
            Status::BufferRisk => 1,
            Status::StorageFailure => 2,
            Status::ProtocolViolation => 3,
            Status::UnexpectedState => 4,
            Status::MissingRow => 5,
            Status::UnexpectedNull => 6,
        }
    }

    /// The status that reports a given internal failure kind.
    pub fn from_kind(k: ErrorKind) -> (s: Status)
        ensures
            s == status_of_kind(k),
    {
        match k {
            ErrorKind::Storage => Status::StorageFailure,
            ErrorKind::ProtocolViolation => Status::ProtocolViolation,
            ErrorKind::UnexpectedState => Status::UnexpectedState,
            ErrorKind::MissingRow => Status::MissingRow,
            ErrorKind::UnexpectedNull => Status::UnexpectedNull,
        }
    }
}

/// No failure kind is ever reported as success.
pub proof fn lemma_failure_never_success(k: ErrorKind)
    ensures
        status_of_kind(k) != Status::Success,
{
}

/// Distinct statuses carry distinct codes, so the untrusted caller can tell
/// every outcome apart from the code alone.
pub proof fn lemma_status_codes_injective(a: Status, b: Status)
    ensures
        code_of(a) == code_of(b) ==> a == b,
{
}

} // verus!
