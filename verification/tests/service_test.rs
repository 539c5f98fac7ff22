use bcrypt::{hash, DEFAULT_COST};
use fldp_rust_backend_template::dtos::{CreateUser, UpdateUser};
use fldp_rust_backend_template::models::User;
use fldp_rust_backend_template::repository::{IUserRepository, InMemoryUserRepository};
use fldp_rust_backend_template::service::UserService;

fn stored_user(id: &str, email: &str, password_hash: &str, created_at: i64) -> User {
    User {
        id: Some(id.into()),
        username: "test".into(),
        email: email.into(),
        password_hash: password_hash.into(),
        role: "user".into(),
        created_at,
        updated_at: created_at,
    }
}

#[test]
fn test_create_user_logic() {
    let repo = InMemoryUserRepository::new();
    let mut service = UserService::new(repo);

    let input = CreateUser {
        username: "testuser".to_string(),
        email: "test@example.com".to_string(),
        password: "password123".to_string(),
    };

    let result = service.create_user(input);

    assert!(result.is_ok());
    let user = result.unwrap();
    assert_eq!(user.email, "test@example.com");
}

#[test]
fn test_get_user_success() {
    let mut repo = InMemoryUserRepository::new();
    let user_id = "user_123";
    repo.create(&stored_user(user_id, "test@test.com", "hash", 1)).unwrap();

    let service = UserService::new(repo);
    let result = service.get_user(user_id);

    assert!(result.is_ok());
    assert_eq!(result.unwrap().id, user_id);
}

#[test]
fn test_list_users() {
    let repo = InMemoryUserRepository::new();
    let service = UserService::new(repo);
    let result = service.list_users(Some(1), Some(10));

    assert!(result.is_ok());
    let paged = result.unwrap();
    assert_eq!(paged.total, 0);
    assert_eq!(paged.data.len(), 0);
}

#[test]
fn test_update_user_success() {
    let repo = InMemoryUserRepository::new();
    let user_id = "user_123";

    let mut service = UserService::new(repo);
    let input = UpdateUser { username: Some("newname".into()), email: None };

    let result = service.update_user(user_id, input);
    assert!(result.is_ok());
}

#[test]
fn test_authenticate_success() {
    let mut repo = InMemoryUserRepository::new();
    let email = "test@test.com";
    let password = "pass";
    let password_hash = hash(password, DEFAULT_COST).unwrap();
    repo.create(&stored_user("id", email, &password_hash, 1)).unwrap();

    let service = UserService::new(repo);
    let result = service.authenticate(email, password);

    assert!(result.is_ok());
    assert_eq!(result.unwrap().email, email);
}
