//! The failures an operation can report.

use vstd::prelude::*;

verus! {

/// Why an operation on the store failed.
#[derive(Debug, Clone, Copy, PartialEq, Eq, Structural)]
pub enum Error {
    /// No row matches the lookup key.
    NotFound,
    /// The viewer is not the author of the article they tried to change.
    Forbidden,
    /// A uniqueness rule would be broken, such as a second favorite by the same user.
    Conflict,
    /// The storage engine failed for any other reason.
    StorageFailure,
}

/// What a storage engine reports when a statement fails.
#[derive(Debug, Clone, Copy, PartialEq, Eq, Structural)]
pub enum StorageFault {
    /// A statement that must yield one row yielded none.
    NoRow,
    /// A unique index rejected the row.
    UniqueViolation,
    /// Anything else: a lost connection, an exhausted pool, a broken constraint.
    Other,
}

impl Error {
    /// The error that a storage fault surfaces as.
    pub open spec fn of_fault(fault: StorageFault) -> Error {
        match fault {
            StorageFault::NoRow => Error::NotFound,
            StorageFault::UniqueViolation => Error::Conflict,
            StorageFault::Other => Error::StorageFailure,
        }
    }

    /// Classifies a storage fault: a missing row is `NotFound`, a rejected
    /// duplicate is `Conflict`, and everything else is `StorageFailure`.
    pub fn from_fault(fault: StorageFault) -> (error: Error)
        ensures
            error == Error::of_fault(fault),
    {
        match fault {
            StorageFault::NoRow => Error::NotFound,
            StorageFault::UniqueViolation => Error::Conflict,
            StorageFault::Other => Error::StorageFailure,
        }
    }
}

} // verus!
