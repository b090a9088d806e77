//! The errors of the service and the statuses they are answered with.
use vstd::prelude::*;

verus! {

/// What went wrong with a request.
#[derive(Debug, Clone, Copy, PartialEq, Eq, Structural)]
pub enum ApiError {
    /// Malformed input: an empty required field, a bad date, bad credentials.
    Validation,
    /// No valid session.
    Unauthorized,
    /// Authenticated, but not the owner of the resource.
    Forbidden,
    /// No row under the identifier.
    NotFound,
    /// The username is taken.
    Conflict,
    /// The store failed.
    Storage,
    /// A fault of the server itself.
    Internal,
}

impl ApiError {
    pub open spec fn status_spec(self) -> u16 {
        match self {
            ApiError::Validation => 400,
            ApiError::Unauthorized => 401,
            ApiError::Forbidden => 403,
            ApiError::NotFound => 404,
            ApiError::Conflict => 400,
            ApiError::Storage => 500,
            ApiError::Internal => 500,
        }
    }

    /// The HTTP status that answers the error.
    pub fn status(&self) -> (r: u16)
        ensures
            r == self.status_spec(),
    {
        match self {
            ApiError::Validation => 400,
            ApiError::Unauthorized => 401,
            ApiError::Forbidden => 403,
            ApiError::NotFound => 404,
            ApiError::Conflict => 400,
            ApiError::Storage => 500,
            ApiError::Internal => 500,
        }
    }
}

} // verus!
