//! Tests of the error taxonomy: stable error codes, status codes, and the
//! mapping from data-layer errors.

use loved_core::errors::{AthenaError, LovedError};
use loved_core::RequestError;

#[test]
fn error_codes_are_stable() {
    assert_eq!(LovedError::InvalidTokenAuthType.get_error_code(), "ERR_INVALID_TOKEN_AUTH_TYPE");
    assert_eq!(LovedError::InvalidTokenState.get_error_code(), "ERR_INVALID_TOKEN_STATE");
    assert_eq!(
        LovedError::PaginationLimitInvalid { min: 1, max: 100 }.get_error_code(),
        "ERR_INVALID_LIMIT"
    );
    assert_eq!(LovedError::InvalidPage.get_error_code(), "ERR_INVALID_PAGE");
    assert_eq!(LovedError::BadRequest.get_error_code(), "ERR_BAD_REQUEST");
    assert_eq!(LovedError::NotFound.get_error_code(), "ERR_NOT_FOUND");
    assert_eq!(
        LovedError::ModelNotFound { model: "user" }.get_error_code(),
        "ERR_RESOURCE_NOT_FOUND"
    );
    assert_eq!(LovedError::MethodNotAccepted.get_error_code(), "ERR_METHOD_NOT_ACCEPTED");
    assert_eq!(
        LovedError::RequestTooLarge { limit: 4096 }.get_error_code(),
        "ERR_REQUEST_TOO_LARGE"
    );
    assert_eq!(
        LovedError::UnsupportedContentType { expected: "application/json" }.get_error_code(),
        "ERR_UNSUPPORTED_MEDIA_TYPE"
    );
    assert_eq!(LovedError::InternalError.get_error_code(), "ERR_INTERNAL_ERROR");
    assert_eq!(LovedError::DatabaseError.get_error_code(), "ERR_DATABASE_ERROR");
    assert_eq!(
        LovedError::DatabaseConnectionError.get_error_code(),
        "ERR_DATABASE_CONNECTION_ERROR"
    );
    assert_eq!(LovedError::Unknown { status: 502 }.get_error_code(), "ERR_UNKNOWN");
}

#[test]
fn status_codes_match_the_taxonomy() {
    assert_eq!(LovedError::InvalidTokenAuthType.status_code(), 400);
    assert_eq!(LovedError::PaginationLimitInvalid { min: 1, max: 100 }.status_code(), 400);
    assert_eq!(LovedError::NotFound.status_code(), 404);
    assert_eq!(LovedError::ModelNotFound { model: "role" }.status_code(), 404);
    assert_eq!(LovedError::MethodNotAccepted.status_code(), 405);
    assert_eq!(LovedError::RequestTooLarge { limit: 1 }.status_code(), 413);
    assert_eq!(LovedError::UnsupportedContentType { expected: "text/plain" }.status_code(), 415);
    assert_eq!(LovedError::InternalError.status_code(), 500);
    assert_eq!(LovedError::DatabaseConnectionError.status_code(), 500);
    assert_eq!(LovedError::Unknown { status: 502 }.status_code(), 502);
}

#[test]
fn data_layer_errors_map_to_request_errors() {
    let db = LovedError::from(AthenaError::DbErr(String::from("connection refused")));
    assert!(matches!(db, LovedError::DatabaseError));
    let missing = LovedError::from(AthenaError::ModelNotFound("submission"));
    assert!(matches!(missing, LovedError::ModelNotFound { model: "submission" }));
}
