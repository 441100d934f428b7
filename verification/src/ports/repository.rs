//! Storage-side vocabulary: sort keys and the errors repositories report.
use vstd::prelude::*;
use crate::text::owned;

verus! {

/// The field a work listing is sorted by.
#[derive(Debug, Clone, Copy, PartialEq, Eq, Structural)]
pub enum WorkSortField {
    Title,
    CreatedAt,
    ProgressPct,
}

/// The direction of a sorted listing.
#[derive(Debug, Clone, Copy, PartialEq, Eq, Structural)]
pub enum SortOrder {
    Asc,
    Desc,
}

/// Why a repository operation failed.
#[derive(Debug)]
pub enum RepoError {
    EmailAlreadyExists,
    NotFound,
    Internal(String),
}

impl RepoError {
    /// The text that describes the error.
    pub open spec fn message(&self) -> Seq<char> {
        match self {
            RepoError::EmailAlreadyExists => "Email already exists"@,
            RepoError::NotFound => "Not found"@,
            RepoError::Internal(msg) => "Internal error: "@ + msg@,
        }
    }

    /// The text that describes the error.
    pub fn to_string(&self) -> (s: String)
        ensures
            s@ == self.message(),
    {
        match self {
            RepoError::EmailAlreadyExists => owned("Email already exists"),
            RepoError::NotFound => owned("Not found"),
            RepoError::Internal(msg) => {
                let mut s = owned("Internal error: ");
                s.append(msg.as_str());
                s
            },
        }
    }
}

} // verus!
