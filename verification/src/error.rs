//! The closed set of domain failure kinds, and their mapping to a transport
//! status and a caller-safe message.
//!
//! Backend causes (`DatabaseError`, `AnyError`) are preserved for logging but
//! are never part of the caller-facing message.

use vstd::prelude::*;

verus! {

/// Every failure a service operation can produce.
#[derive(Debug, Clone)]
pub enum AppError {
    /// The requested entity is absent.
    NotFound,
    /// The input's shape is invalid; the detail is human-readable.
    ValidationError(String),
    /// The hashing or signing primitive failed.
    AuthError,
    /// The caller lacks the required role.
    PermissionDenied,
    /// The persistence backend failed; the cause is kept for logging only.
    DatabaseError(String),
    /// An unclassified internal failure.
    InternalServerError,
    /// A wrapped failure from elsewhere, kept for logging only.
    AnyError(String),
    /// A uniqueness rule was violated.
    UserAlreadyExists,
    /// Authentication failed; unknown email and wrong password are
    /// deliberately indistinguishable.
    InvalidCredentials,
}

/// The transport status that each error kind maps to.
pub open spec fn spec_status_code(e: AppError) -> u16 {
    match e {
        AppError::NotFound => 404,
        AppError::ValidationError(_) => 400,
        AppError::AuthError => 401,
        AppError::PermissionDenied => 403,
        AppError::DatabaseError(_) => 500,
        AppError::InternalServerError => 500,
        AppError::AnyError(_) => 500,
        AppError::UserAlreadyExists => 409,
        AppError::InvalidCredentials => 401,
    }
}

/// The caller-safe message for each error kind. Backend causes never
/// appear here, whatever they hold.
pub open spec fn spec_public_message(e: AppError) -> Seq<char> {
    match e {
        AppError::NotFound => "Resource not found"@,
        AppError::ValidationError(_) => "Validation Error"@,
        AppError::AuthError => "Authentication failed"@,
        AppError::PermissionDenied => "Permission denied"@,
        AppError::DatabaseError(_) => "Database error"@,
        AppError::InternalServerError => "Internal server error"@,
        AppError::AnyError(_) => "Internal server error"@,
        AppError::UserAlreadyExists => "User already exists"@,
        AppError::InvalidCredentials => "Invalid email or password"@,
    }
}

impl AppError {
    /// The transport status for this error.
    pub fn status_code(&self) -> (c: u16)
        ensures
            c == spec_status_code(*self),
    {
        match self {
            AppError::NotFound => 404,
            AppError::ValidationError(_) => 400,
            AppError::AuthError => 401,
            AppError::PermissionDenied => 403,
            AppError::DatabaseError(_) => 500,
            AppError::InternalServerError => 500,
            AppError::AnyError(_) => 500,
            AppError::UserAlreadyExists => 409,
            AppError::InvalidCredentials => 401,
        }
    }

    /// The message that may be rendered verbatim to a caller. A backend
    /// cause is replaced by a generic message, never echoed.
    pub fn public_message(&self) -> (m: String)
        ensures
            m@ == spec_public_message(*self),
    {
        match self {
            AppError::NotFound => String::from_str("Resource not found"),
            AppError::ValidationError(_) => String::from_str("Validation Error"),
            AppError::AuthError => String::from_str("Authentication failed"),
            AppError::PermissionDenied => String::from_str("Permission denied"),
            AppError::DatabaseError(_) => String::from_str("Database error"),
            AppError::InternalServerError => String::from_str("Internal server error"),
            AppError::AnyError(_) => String::from_str("Internal server error"),
            AppError::UserAlreadyExists => String::from_str("User already exists"),
            AppError::InvalidCredentials => String::from_str("Invalid email or password"),
        }
    }
}

} // verus!
