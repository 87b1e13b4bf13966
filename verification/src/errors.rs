//! The failures that the API tells apart.

use vstd::prelude::*;
use vstd::string::StringExecFns;

verus! {

/// Why a request failed.
#[derive(Debug, Clone, Copy, PartialEq, Eq)]
pub enum ApiError {
    /// The request carries a value that the record shape does not admit.
    Validation,
    /// No ship has the lookup key.
    NotFound,
    /// The store could not be reached or could not run a statement.
    Store,
    /// A stored document does not fit the shape declared for its column.
    Serialization,
}

/// What a failed fetch of a single row reported.
#[derive(Debug, Clone, Copy, PartialEq, Eq)]
pub enum FetchFailure {
    /// The query ran and matched no row.
    RowNotFound,
    /// Anything else: the store could not answer.
    Other,
}

impl ApiError {
    /// The HTTP status code of the failure.
    pub open spec fn status(self) -> u16 {
        match self {
            ApiError::Validation => 400,
            ApiError::NotFound => 404,
            ApiError::Store => 500,
            ApiError::Serialization => 500,
        }
    }

    /// The message for the caller: the same for every failure of a kind, so
    /// that no detail of the store leaks out.
    pub open spec fn text(self) -> Seq<char> {
        match self {
            ApiError::Validation => "Validation error"@,
            ApiError::NotFound => "Ship not found"@,
            ApiError::Store => "Internal database error"@,
            ApiError::Serialization => "Data processing error"@,
        }
    }

    /// The HTTP status code of the failure.
    pub fn status_code(&self) -> (code: u16)
        ensures
            code == self.status(),
    {
        match self {
            ApiError::Validation => 400,
            ApiError::NotFound => 404,
            ApiError::Store => 500,
            ApiError::Serialization => 500,
        }
    }

    /// The message for the caller.
    pub fn message(&self) -> (message: String)
        ensures
            message@ == self.text(),
    {
        match self {
            ApiError::Validation => String::from_str("Validation error"),
            ApiError::NotFound => String::from_str("Ship not found"),
            ApiError::Store => String::from_str("Internal database error"),
            ApiError::Serialization => String::from_str("Data processing error"),
        }
    }

    /// The failure of a request whose single-row fetch failed: a missing row
    /// means that the ship is unknown, anything else is the store's fault.
    pub fn from_fetch(failure: FetchFailure) -> (error: ApiError)
        ensures
            error == match failure {
                FetchFailure::RowNotFound => ApiError::NotFound,
                FetchFailure::Other => ApiError::Store,
            },
    {
        match failure {
            FetchFailure::RowNotFound => ApiError::NotFound,
            FetchFailure::Other => ApiError::Store,
        }
    }
}

} // verus!
