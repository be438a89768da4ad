//! gRPC-facing values: status codes, statuses and the messages that the auth
//! service answers with, and the mapping of auth errors onto statuses.

use vstd::prelude::*;
use crate::auth_app::{AuthError, TokenPair};
use crate::auth_domain::DomainError;

verus! {

/// The gRPC status codes.
#[derive(Debug, Clone, Copy, PartialEq, Eq)]
pub enum GrpcCode {
    /// The call succeeded (gRPC's `OK`).
    Success,
    Cancelled,
    Unknown,
    InvalidArgument,
    DeadlineExceeded,
    NotFound,
    AlreadyExists,
    PermissionDenied,
    ResourceExhausted,
    FailedPrecondition,
    Aborted,
    OutOfRange,
    Unimplemented,
    Internal,
    Unavailable,
    DataLoss,
    Unauthenticated,
}

/// A gRPC status: code, message, and the machine-readable error code that
/// travels in the `x-error-code` metadata entry, when there is one.
pub struct GrpcStatus {
    pub code: GrpcCode,
    pub message: String,
    pub error_code: Option<String>,
}

/// The metadata key of the machine-readable error code.
pub fn error_code_metadata_key() -> (r: &'static str)
    ensures
        r@ == "x-error-code"@,
{
    "x-error-code"
}

/// The tokens message of the auth API.
pub struct AuthTokens {
    pub access_token: String,
    pub refresh_token: String,
    pub expires_in: i64,
}

/// The status that an auth error is answered with. Domain errors are invalid
/// arguments, a taken address already exists, bad credentials and unknown
/// sessions are unauthenticated; internal errors carry no detail and no code.
pub open spec fn auth_status_spec(err: AuthError) -> (GrpcCode, Seq<char>, Option<Seq<char>>) {
    match err {
        AuthError::Domain(DomainError::InvalidEmail) => (
            GrpcCode::InvalidArgument,
            "invalid email address"@,
            Some("INVALID_EMAIL"@),
        ),
        AuthError::Domain(DomainError::WeakPassword(reason)) => (
            GrpcCode::InvalidArgument,
            "invalid password: "@ + reason@,
            Some("WEAK_PASSWORD"@),
        ),
        AuthError::EmailTaken => (
            GrpcCode::AlreadyExists,
            "email already taken"@,
            Some("EMAIL_TAKEN"@),
        ),
        AuthError::InvalidCredentials => (
            GrpcCode::Unauthenticated,
            "invalid credentials"@,
            Some("INVALID_CREDENTIALS"@),
        ),
        AuthError::SessionNotFound => (
            GrpcCode::Unauthenticated,
            "expired or revoked session"@,
            Some("SESSION_NOT_FOUND"@),
        ),
        AuthError::Internal(_) => (GrpcCode::Internal, "internal error"@, None),
    }
}

/// Maps an auth error to the status the client receives.
pub fn to_status(err: AuthError) -> (r: GrpcStatus)
    ensures
        (r.code, r.message@, match r.error_code {
            Some(c) => Some(c@),
            None => None,
        }) == auth_status_spec(err),
{
    let code = String::from_str(err.error_code());
    match err {
        AuthError::Domain(e) => GrpcStatus {
            code: GrpcCode::InvalidArgument,
            message: e.message(),
            error_code: Some(code),
        },
        AuthError::EmailTaken => GrpcStatus {
            code: GrpcCode::AlreadyExists,
            message: String::from_str("email already taken"),
            error_code: Some(code),
        },
        AuthError::InvalidCredentials => GrpcStatus {
            code: GrpcCode::Unauthenticated,
            message: String::from_str("invalid credentials"),
            error_code: Some(code),
        },
        AuthError::SessionNotFound => GrpcStatus {
            code: GrpcCode::Unauthenticated,
            message: String::from_str("expired or revoked session"),
            error_code: Some(code),
        },
        AuthError::Internal(_) => GrpcStatus {
            code: GrpcCode::Internal,
            message: String::from_str("internal error"),
            error_code: None,
        },
    }
}

/// The tokens message for a token pair.
pub fn to_proto(pair: TokenPair) -> (r: AuthTokens)
    ensures
        r.access_token == pair.access.token,
        r.refresh_token == pair.refresh,
        r.expires_in == pair.access.expires_in_secs,
{
    AuthTokens {
        access_token: pair.access.token,
        refresh_token: pair.refresh,
        expires_in: pair.access.expires_in_secs,
    }
}

} // verus!
