//! The failures that a storage operation can report.

use vstd::prelude::*;
use vstd::string::*;

verus! {

/// The three kinds of failure.
#[derive(Clone, Copy, Debug, PartialEq, Eq, Structural)]
pub enum ErrorKind {
    /// The engine or its driver failed, or data did not fit the columnar
    /// format.
    Internal,
    /// The caller handed in something malformed or unknown.
    InvalidArgument,
    /// A query found no rows, on a backend that reports that as a failure.
    NotFound,
}

/// A failure, with the message that explains it.
#[derive(Clone, Debug, PartialEq, Eq)]
pub enum StorageError {
    Internal(String),
    InvalidArgument(String),
    NotFound(String),
}

impl StorageError {
    /// The kind of this failure.
    pub open spec fn spec_kind(&self) -> ErrorKind {
        match self {
            StorageError::Internal(_) => ErrorKind::Internal,
            StorageError::InvalidArgument(_) => ErrorKind::InvalidArgument,
            StorageError::NotFound(_) => ErrorKind::NotFound,
        }
    }

    /// The message of this failure.
    pub open spec fn spec_message(&self) -> Seq<char> {
        match self {
            StorageError::Internal(m) => m@,
            StorageError::InvalidArgument(m) => m@,
            StorageError::NotFound(m) => m@,
        }
    }

    /// True when the failure is of kind `kind` and says `message`.
    pub open spec fn says(&self, kind: ErrorKind, message: Seq<char>) -> bool {
        self.spec_kind() == kind && self.spec_message() == message
    }

    /// An internal failure that says `message`.
    pub fn internal(message: &str) -> (e: StorageError)
        ensures
            e.says(ErrorKind::Internal, message@),
    {
        StorageError::Internal(String::from_str(message))
    }

    /// An invalid-argument failure that says `message`.
    pub fn invalid_argument(message: &str) -> (e: StorageError)
        ensures
            e.says(ErrorKind::InvalidArgument, message@),
    {
        StorageError::InvalidArgument(String::from_str(message))
    }

    /// A not-found failure that says `message`.
    pub fn not_found(message: &str) -> (e: StorageError)
        ensures
            e.says(ErrorKind::NotFound, message@),
    {
        StorageError::NotFound(String::from_str(message))
    }

    /// The kind of this failure.
    pub fn kind(&self) -> (k: ErrorKind)
        ensures
            k == self.spec_kind(),
    {
        match self {
            StorageError::Internal(_) => ErrorKind::Internal,
            StorageError::InvalidArgument(_) => ErrorKind::InvalidArgument,
            StorageError::NotFound(_) => ErrorKind::NotFound,
        }
    }

    /// The message of this failure.
    pub fn message(&self) -> (m: String)
        ensures
            m@ == self.spec_message(),
    {
        match self {
            StorageError::Internal(m) => m.clone(),
            StorageError::InvalidArgument(m) => m.clone(),
            StorageError::NotFound(m) => m.clone(),
        }
    }
}

} // verus!
