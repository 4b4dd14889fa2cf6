//! The three ways in which a request on ideas can fail.

use vstd::prelude::*;

verus! {

/// Why a request failed.
#[derive(Debug, Clone)]
pub enum IdeaError {
    /// The identifier is not of the form `table:key` with two non-empty parts.
    InvalidId { id: String },
    /// The identifier is well formed but names no stored record.
    NotFound { id: String },
    /// The store itself could not carry out the call.
    Storage { message: String },
}

/// The three kinds of failure, without their text.
#[derive(Debug, Clone, Copy, PartialEq, Eq, Structural)]
pub enum ErrorKind {
    InvalidId,
    NotFound,
    Storage,
}

impl IdeaError {
    pub open spec fn spec_kind(&self) -> ErrorKind {
        match self {
            IdeaError::InvalidId { .. } => ErrorKind::InvalidId,
            IdeaError::NotFound { .. } => ErrorKind::NotFound,
            IdeaError::Storage { .. } => ErrorKind::Storage,
        }
    }

    /// The text shown to a user for this error.
    pub open spec fn spec_message(&self) -> Seq<char> {
        match self {
            IdeaError::InvalidId { id } => "Invalid ID format: "@ + id@,
            IdeaError::NotFound { id } => "Idea not found: "@ + id@,
            IdeaError::Storage { message } => message@,
        }
    }

    /// The kind of this error.
    pub fn kind(&self) -> (r: ErrorKind)
        ensures
            r == self.spec_kind(),
    {
        match self {
            IdeaError::InvalidId { .. } => ErrorKind::InvalidId,
            IdeaError::NotFound { .. } => ErrorKind::NotFound,
            IdeaError::Storage { .. } => ErrorKind::Storage,
        }
    }

    /// The text shown to a user for this error.
    pub fn message(&self) -> (r: String)
        ensures
            r@ == self.spec_message(),
    {
        match self {
            IdeaError::InvalidId { id } => String::from_str("Invalid ID format: ").concat(
                id.as_str(),
            ),
            IdeaError::NotFound { id } => String::from_str("Idea not found: ").concat(id.as_str()),
            IdeaError::Storage { message } => message.clone(),
        }
    }
}

} // verus!
