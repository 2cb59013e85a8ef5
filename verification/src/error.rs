//! The ways a request can fail, and the HTTP status of each.

use vstd::prelude::*;

verus! {

/// Why a request was not served.
#[derive(Clone, Copy, Debug, PartialEq, Eq, Structural)]
pub enum ApiError {
    /// A field was malformed or the declared protocol version is not the
    /// server's: refused before storage is touched.
    Invalid,
    /// The acting user's id is not in storage.
    CallerNotFound,
    /// The acting user exists, the secondary key resolves to nothing.
    TargetNotFound,
    /// Storage did not answer the question it was asked.
    Storage,
}

/// Status of a served request.
pub const STATUS_OK: u16 = 200;

/// Status of a request that failed validation.
pub const STATUS_UNPROCESSABLE: u16 = 422;

/// Status of a request whose acting user is unknown.
pub const STATUS_NOT_FOUND: u16 = 404;

/// Status of a request whose target key is unknown.
pub const STATUS_GONE: u16 = 410;

/// Status of a request that storage failed.
pub const STATUS_FAILURE: u16 = 500;

impl ApiError {
    /// The HTTP status that stands for this error.
    pub open spec fn code(self) -> u16 {
        match self {
            ApiError::Invalid => STATUS_UNPROCESSABLE,
            ApiError::CallerNotFound => STATUS_NOT_FOUND,
            ApiError::TargetNotFound => STATUS_GONE,
            ApiError::Storage => STATUS_FAILURE,
        }
    }

    /// The HTTP status that stands for this error.
    pub fn status_code(&self) -> (c: u16)
        ensures
            c == self.code(),
    {
        match self {
            ApiError::Invalid => STATUS_UNPROCESSABLE,
            ApiError::CallerNotFound => STATUS_NOT_FOUND,
            ApiError::TargetNotFound => STATUS_GONE,
            ApiError::Storage => STATUS_FAILURE,
        }
    }
}

/// The HTTP status of an outcome: 200 for a body, the error's own otherwise.
pub open spec fn outcome_code<T>(outcome: Result<T, ApiError>) -> u16 {
    match outcome {
        Ok(_) => STATUS_OK,
        Err(e) => e.code(),
    }
}

/// The HTTP status of an outcome.
pub fn outcome_status<T>(outcome: &Result<T, ApiError>) -> (c: u16)
    ensures
        c == outcome_code(*outcome),
{
    match outcome {
        Ok(_) => STATUS_OK,
        Err(e) => e.status_code(),
    }
}

/// No two errors share a status, and none is taken for success: a client
/// tells them apart by the status alone.
pub proof fn status_tells_errors_apart(a: ApiError, b: ApiError)
    ensures
        a.code() == b.code() ==> a == b,
        a.code() != STATUS_OK,
{
}

} // verus!
