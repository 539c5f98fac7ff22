use fldp_rust_backend_template::auth::{login, register, LoginRequest};
use fldp_rust_backend_template::dtos::{CreateUser, UpdateUser};
use fldp_rust_backend_template::error::AppError;
use fldp_rust_backend_template::models::User;
use fldp_rust_backend_template::repository::{IUserRepository, InMemoryUserRepository};
use fldp_rust_backend_template::service::UserService;

fn registration(username: &str, email: &str, password: &str) -> CreateUser {
    CreateUser { username: username.into(), email: email.into(), password: password.into() }
}

/// Waits until the wall clock has moved by at least two milliseconds, so
/// a later update stamp is strictly greater than an earlier one.
fn let_clock_advance() {
    let start = std::time::SystemTime::now();
    loop {
        if let Ok(elapsed) = start.elapsed() {
            if elapsed >= std::time::Duration::from_millis(2) {
                break;
            }
        }
    }
}

#[test]
fn test_register_then_authenticate() {
    let mut service = UserService::new(InMemoryUserRepository::new());
    let view = service
        .create_user(registration("carol", "carol@example.com", "hunter22"))
        .unwrap();

    assert!(!view.id.is_empty());
    assert_eq!(view.id.len(), 36);
    assert_eq!(view.username, "carol");
    assert_eq!(view.role, "user");
    assert_eq!(view.created_at, view.updated_at);

    let account = service.authenticate("carol@example.com", "hunter22").unwrap();
    assert_eq!(account.email, "carol@example.com");
}

#[test]
fn test_register_duplicate_email_unchanged_count() {
    let mut service = UserService::new(InMemoryUserRepository::new());
    service
        .create_user(registration("dave", "dave@example.com", "password1"))
        .unwrap();
    let before = service.list_users(None, None).unwrap().total;

    let second = service.create_user(registration("dave2", "dave@example.com", "password2"));
    assert!(matches!(second, Err(AppError::UserAlreadyExists)));

    let after = service.list_users(None, None).unwrap().total;
    assert_eq!(before, after);
}

#[test]
fn test_authenticate_indistinguishable_errors() {
    let mut service = UserService::new(InMemoryUserRepository::new());
    service
        .create_user(registration("erin", "erin@example.com", "correct1"))
        .unwrap();

    let wrong_password = service.authenticate("erin@example.com", "wrong111");
    let unknown_email = service.authenticate("nobody@example.com", "correct1");

    assert!(matches!(wrong_password, Err(AppError::InvalidCredentials)));
    assert!(matches!(unknown_email, Err(AppError::InvalidCredentials)));
}

#[test]
fn test_list_pagination_window() {
    let mut repo = InMemoryUserRepository::new();
    for i in 0..25i64 {
        let user = User {
            id: Some(format!("id-{}", i)),
            username: format!("user{}", i),
            email: format!("user{}@example.com", i),
            password_hash: "hash".into(),
            role: "user".into(),
            created_at: i,
            updated_at: i,
        };
        repo.create(&user).unwrap();
    }
    let service = UserService::new(repo);

    let first = service.list_users(Some(1), Some(10)).unwrap();
    assert_eq!(first.total, 25);
    assert_eq!(first.total_pages, 3);
    assert_eq!(first.data.len(), 10);

    let beyond = service.list_users(Some(4), Some(10)).unwrap();
    assert_eq!(beyond.data.len(), 0);
    assert_eq!(beyond.total_pages, 3);
    assert_eq!(beyond.total, 25);
}

#[test]
fn test_list_newest_first() {
    let mut repo = InMemoryUserRepository::new();
    for i in 0..3i64 {
        let user = User {
            id: Some(format!("id-{}", i)),
            username: format!("user{}", i),
            email: format!("user{}@example.com", i),
            password_hash: "hash".into(),
            role: "user".into(),
            created_at: i,
            updated_at: i,
        };
        repo.create(&user).unwrap();
    }
    let service = UserService::new(repo);
    let page = service.list_users(None, None).unwrap();
    let stamps: Vec<i64> = page.data.iter().map(|v| v.created_at).collect();
    assert_eq!(stamps, vec![2, 1, 0]);
}

#[test]
fn test_update_email_conflict_leaves_target_unchanged() {
    let mut service = UserService::new(InMemoryUserRepository::new());
    let a = service
        .create_user(registration("fred", "fred@example.com", "password1"))
        .unwrap();
    service
        .create_user(registration("gina", "gina@example.com", "password2"))
        .unwrap();

    let result = service.update_user(
        &a.id,
        UpdateUser { username: None, email: Some("gina@example.com".into()) },
    );
    assert!(matches!(result, Err(AppError::UserAlreadyExists)));

    let unchanged = service.get_user(&a.id).unwrap();
    assert_eq!(unchanged.email, "fred@example.com");
}

#[test]
fn test_register_get_update_roundtrip() {
    let mut service = UserService::new(InMemoryUserRepository::new());
    let view = service
        .create_user(registration("hank", "hank@example.com", "password1"))
        .unwrap();

    let fetched = service.get_user(&view.id).unwrap();
    assert_eq!(fetched.username, "hank");
    assert_eq!(fetched.email, "hank@example.com");
    assert_eq!(fetched.role, "user");

    let_clock_advance();
    service
        .update_user(&view.id, UpdateUser { username: Some("x".repeat(3)), email: None })
        .unwrap();

    let updated = service.get_user(&view.id).unwrap();
    assert_eq!(updated.username, "xxx");
    assert!(updated.updated_at > fetched.updated_at);
    assert_eq!(updated.created_at, fetched.created_at);
}

#[test]
fn test_scenario_ann() {
    let mut service = UserService::new(InMemoryUserRepository::new());

    let view = register(
        &mut service,
        registration("ann", "ann@example.com", "secret1"),
    )
    .unwrap();
    assert_eq!(view.username, "ann");
    assert_eq!(view.email, "ann@example.com");
    assert_eq!(view.role, "user");

    let again = register(
        &mut service,
        registration("ann", "ann@example.com", "secret1"),
    );
    assert!(matches!(again, Err(AppError::UserAlreadyExists)));

    let wrong = service.authenticate("ann@example.com", "wrong");
    assert!(matches!(wrong, Err(AppError::InvalidCredentials)));

    let full = service.authenticate("ann@example.com", "secret1").unwrap();
    assert_eq!(full.role, "user");
    assert_eq!(full.email, "ann@example.com");
}

#[test]
fn test_register_rejects_invalid_shape() {
    let mut service = UserService::new(InMemoryUserRepository::new());
    let result = register(
        &mut service,
        registration("ann", "not-an-email", "secret1"),
    );
    assert!(matches!(result, Err(AppError::ValidationError(_))));
}

#[test]
fn test_login_issues_token() {
    let mut service = UserService::new(InMemoryUserRepository::new());
    register(
        &mut service,
        registration("ivan", "ivan@example.com", "secret77"),
    )
    .unwrap();

    let request = LoginRequest { email: "ivan@example.com".into(), password: "secret77".into() };
    let response = login(&service, &request, "test-signing-secret").unwrap();

    assert_eq!(response.user.email, "ivan@example.com");
    assert_eq!(response.token.matches('.').count(), 2);

    let bad = LoginRequest { email: "ivan@example.com".into(), password: "nope999".into() };
    assert!(matches!(
        login(&service, &bad, "test-signing-secret"),
        Err(AppError::InvalidCredentials)
    ));
}
