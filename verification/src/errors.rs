//! Error types.
//!
//! `AthenaError` is the data layer's error; `LovedError` is the error the
//! request layer reports to clients, each variant under a stable error code
//! and an HTTP status code.

use vstd::prelude::*;
use crate::RequestError;

verus! {

/// An error of the data layer: the database failed, or a requested model does
/// not exist. A database failure carries the reported detail text.
#[derive(Debug)]
pub enum AthenaError {
    DbErr(String),
    ModelNotFound(&'static str),
}

/// An error reported to a client of the request layer.
#[derive(Debug)]
pub enum LovedError {
    /// The client sent an invalid token authentication type.
    InvalidTokenAuthType,
    /// The client sent an invalid token state.
    InvalidTokenState,
    /// The client sent an invalid pagination limit.
    PaginationLimitInvalid { min: usize, max: usize },
    /// The client sent an invalid page number.
    InvalidPage,
    /// The client sent a general request that could not be understood.
    BadRequest,
    /// The client requested an endpoint that does not exist.
    NotFound,
    /// The client asked for a resource that does not exist.
    ModelNotFound { model: &'static str },
    /// The client used a request method the endpoint does not accept.
    MethodNotAccepted,
    /// The client sent a request body that is too large.
    RequestTooLarge { limit: usize },
    /// The client sent a content body of a type the endpoint does not accept.
    UnsupportedContentType { expected: &'static str },
    /// An unrecoverable application error.
    InternalError,
    /// An unrecoverable database error.
    DatabaseError,
    /// No connection could be made to the database.
    DatabaseConnectionError,
    /// A fallback for errors the application does not handle naturally.
    Unknown { status: u16 },
}

impl LovedError {
    /// The HTTP status code of each error, as a mathematical value.
    pub open spec fn spec_status_code(&self) -> u16 {
        match *self {
            LovedError::InvalidTokenAuthType => 400,
            LovedError::InvalidTokenState => 400,
            LovedError::PaginationLimitInvalid { .. } => 400,
            LovedError::InvalidPage => 400,
            LovedError::BadRequest => 400,
            LovedError::NotFound => 404,
            LovedError::ModelNotFound { .. } => 404,
            LovedError::MethodNotAccepted => 405,
            LovedError::RequestTooLarge { .. } => 413,
            LovedError::UnsupportedContentType { .. } => 415,
            LovedError::InternalError => 500,
            LovedError::DatabaseError => 500,
            LovedError::DatabaseConnectionError => 500,
            LovedError::Unknown { status } => status,
        }
    }

    /// Returns the HTTP status code under which this error is reported.
    pub fn status_code(&self) -> (status: u16)
        ensures
            status == self.spec_status_code(),
    {
        match *self {
            LovedError::InvalidTokenAuthType => 400,
            LovedError::InvalidTokenState => 400,
            LovedError::PaginationLimitInvalid { .. } => 400,
            LovedError::InvalidPage => 400,
            LovedError::BadRequest => 400,
            LovedError::NotFound => 404,
            LovedError::ModelNotFound { .. } => 404,
            LovedError::MethodNotAccepted => 405,
            LovedError::RequestTooLarge { .. } => 413,
            LovedError::UnsupportedContentType { .. } => 415,
            LovedError::InternalError => 500,
            LovedError::DatabaseError => 500,
            LovedError::DatabaseConnectionError => 500,
            LovedError::Unknown { status } => status,
        }
    }
}

impl RequestError for LovedError {
    open spec fn spec_error_code(&self) -> Seq<char> {
        match *self {
            LovedError::InvalidTokenAuthType => "ERR_INVALID_TOKEN_AUTH_TYPE"@,
            LovedError::InvalidTokenState => "ERR_INVALID_TOKEN_STATE"@,
            LovedError::PaginationLimitInvalid { .. } => "ERR_INVALID_LIMIT"@,
            LovedError::InvalidPage => "ERR_INVALID_PAGE"@,
            LovedError::BadRequest => "ERR_BAD_REQUEST"@,
            LovedError::NotFound => "ERR_NOT_FOUND"@,
            LovedError::ModelNotFound { .. } => "ERR_RESOURCE_NOT_FOUND"@,
            LovedError::MethodNotAccepted => "ERR_METHOD_NOT_ACCEPTED"@,
            LovedError::RequestTooLarge { .. } => "ERR_REQUEST_TOO_LARGE"@,
            LovedError::UnsupportedContentType { .. } => "ERR_UNSUPPORTED_MEDIA_TYPE"@,
            LovedError::InternalError => "ERR_INTERNAL_ERROR"@,
            LovedError::DatabaseError => "ERR_DATABASE_ERROR"@,
            LovedError::DatabaseConnectionError => "ERR_DATABASE_CONNECTION_ERROR"@,
            LovedError::Unknown { .. } => "ERR_UNKNOWN"@,
        }
    }

    fn get_error_code(&self) -> (code: &str) {
        match *self {
            LovedError::InvalidTokenAuthType => "ERR_INVALID_TOKEN_AUTH_TYPE",
            LovedError::InvalidTokenState => "ERR_INVALID_TOKEN_STATE",
            LovedError::PaginationLimitInvalid { .. } => "ERR_INVALID_LIMIT",
            LovedError::InvalidPage => "ERR_INVALID_PAGE",
            LovedError::BadRequest => "ERR_BAD_REQUEST",
            LovedError::NotFound => "ERR_NOT_FOUND",
            LovedError::ModelNotFound { .. } => "ERR_RESOURCE_NOT_FOUND",
            LovedError::MethodNotAccepted => "ERR_METHOD_NOT_ACCEPTED",
            LovedError::RequestTooLarge { .. } => "ERR_REQUEST_TOO_LARGE",
            LovedError::UnsupportedContentType { .. } => "ERR_UNSUPPORTED_MEDIA_TYPE",
            LovedError::InternalError => "ERR_INTERNAL_ERROR",
            LovedError::DatabaseError => "ERR_DATABASE_ERROR",
            LovedError::DatabaseConnectionError => "ERR_DATABASE_CONNECTION_ERROR",
            LovedError::Unknown { .. } => "ERR_UNKNOWN",
        }
    }
}

impl From<AthenaError> for LovedError {
    /// A database failure is reported as a database error; a missing model is
    /// reported as the missing resource.
    fn from(error: AthenaError) -> (e: LovedError) {
        match error {
            AthenaError::DbErr(_) => LovedError::DatabaseError,
            AthenaError::ModelNotFound(model) => LovedError::ModelNotFound { model },
        }
    }
}

impl vstd::std_specs::convert::FromSpecImpl<AthenaError> for LovedError {
    open spec fn obeys_from_spec() -> bool {
        true
    }

    open spec fn from_spec(error: AthenaError) -> LovedError {
        match error {
            AthenaError::DbErr(_) => LovedError::DatabaseError,
            AthenaError::ModelNotFound(model) => LovedError::ModelNotFound { model },
        }
    }
}

} // verus!
