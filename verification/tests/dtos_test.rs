use fldp_rust_backend_template::dtos::{CreateUser, UpdateUser, UserResponse};
use fldp_rust_backend_template::error::AppError;
use fldp_rust_backend_template::models::User;

#[test]
fn test_user_response_from_user() {
    let now: i64 = 1_700_000_000_000;
    let user = User {
        id: Some("id123".into()),
        username: "test".into(),
        email: "test@test.com".into(),
        password_hash: "hash".into(),
        role: "user".into(),
        created_at: now,
        updated_at: now,
    };

    let response: UserResponse = user.into();
    assert_eq!(response.id, "id123");
    assert_eq!(response.username, "test");
    assert_eq!(response.email, "test@test.com");
}

#[test]
fn test_user_response_from_user_without_id() {
    let user = User {
        id: None,
        username: "test".into(),
        email: "test@test.com".into(),
        password_hash: "hash".into(),
        role: "user".into(),
        created_at: 0,
        updated_at: 0,
    };
    let response: UserResponse = user.into();
    assert_eq!(response.id, "");
}

#[test]
fn test_validate_create_user() {
    let ok = CreateUser {
        username: "ann".into(),
        email: "ann@example.com".into(),
        password: "secret1".into(),
    };
    assert!(ok.validate().is_ok());

    let short_name = CreateUser {
        username: "ab".into(),
        email: "ann@example.com".into(),
        password: "secret1".into(),
    };
    match short_name.validate() {
        Err(AppError::ValidationError(m)) => {
            assert_eq!(m, "Username must be at least 3 characters")
        }
        other => panic!("expected a validation error, got {:?}", other),
    }

    let bad_email = CreateUser {
        username: "ann".into(),
        email: "not-an-email".into(),
        password: "secret1".into(),
    };
    match bad_email.validate() {
        Err(AppError::ValidationError(m)) => assert_eq!(m, "Invalid email format"),
        other => panic!("expected a validation error, got {:?}", other),
    }

    let short_password = CreateUser {
        username: "ann".into(),
        email: "ann@example.com".into(),
        password: "12345".into(),
    };
    match short_password.validate() {
        Err(AppError::ValidationError(m)) => {
            assert_eq!(m, "Password must be at least 6 characters")
        }
        other => panic!("expected a validation error, got {:?}", other),
    }
}

#[test]
fn test_validate_update_user() {
    let empty = UpdateUser { username: None, email: None };
    assert!(empty.validate().is_ok());

    let ok = UpdateUser { username: Some("newname".into()), email: Some("new@example.com".into()) };
    assert!(ok.validate().is_ok());

    let short = UpdateUser { username: Some("ab".into()), email: None };
    assert!(matches!(short.validate(), Err(AppError::ValidationError(_))));

    let bad_email = UpdateUser { username: None, email: Some("nope".into()) };
    assert!(matches!(bad_email.validate(), Err(AppError::ValidationError(_))));
}
