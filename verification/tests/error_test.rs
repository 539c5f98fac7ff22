use fldp_rust_backend_template::error::AppError;

#[test]
fn test_error_status_codes() {
    assert_eq!(AppError::NotFound.status_code(), 404);
    assert_eq!(AppError::AuthError.status_code(), 401);
    assert_eq!(AppError::ValidationError("test".into()).status_code(), 400);
    assert_eq!(AppError::DatabaseError("db error".into()).status_code(), 500);
    assert_eq!(AppError::InternalServerError.status_code(), 500);
    assert_eq!(AppError::PermissionDenied.status_code(), 403);
    assert_eq!(AppError::InvalidCredentials.status_code(), 401);
    assert_eq!(AppError::UserAlreadyExists.status_code(), 409);
    assert_eq!(AppError::AnyError("error".into()).status_code(), 500);
}

#[test]
fn test_error_public_messages() {
    assert_eq!(AppError::NotFound.public_message(), "Resource not found");
    assert_eq!(AppError::UserAlreadyExists.public_message(), "User already exists");
    assert_eq!(
        AppError::InvalidCredentials.public_message(),
        "Invalid email or password"
    );
}

#[test]
fn test_error_backend_cause_never_leaks() {
    let e = AppError::DatabaseError("connection string with password".into());
    assert_eq!(e.public_message(), "Database error");
    let e = AppError::AnyError("stack trace".into());
    assert_eq!(e.public_message(), "Internal server error");
}
