use fldp_rust_backend_template::models::User;
use fldp_rust_backend_template::repository::{
    IUserRepository, InMemoryUserRepository, RepoError, UserPatch,
};

fn account(id: &str, email: &str, created_at: i64) -> User {
    User {
        id: Some(id.into()),
        username: "someone".into(),
        email: email.into(),
        password_hash: "hash".into(),
        role: "user".into(),
        created_at,
        updated_at: created_at,
    }
}

#[test]
fn test_create_rejects_duplicate_email() {
    let mut repo = InMemoryUserRepository::new();
    repo.create(&account("a", "same@example.com", 1)).unwrap();
    let result = repo.create(&account("b", "same@example.com", 2));
    assert!(matches!(result, Err(RepoError::Duplicate)));
    assert_eq!(repo.count().unwrap(), 1);
}

#[test]
fn test_create_rejects_duplicate_id() {
    let mut repo = InMemoryUserRepository::new();
    repo.create(&account("a", "first@example.com", 1)).unwrap();
    let result = repo.create(&account("a", "second@example.com", 2));
    assert!(matches!(result, Err(RepoError::Duplicate)));
}

#[test]
fn test_find_all_serves_newest_first() {
    let mut repo = InMemoryUserRepository::new();
    repo.create(&account("a", "a@example.com", 5)).unwrap();
    repo.create(&account("b", "b@example.com", 9)).unwrap();
    repo.create(&account("c", "c@example.com", 7)).unwrap();

    let all = repo.find_all(0, 10).unwrap();
    let stamps: Vec<i64> = all.iter().map(|u| u.created_at).collect();
    assert_eq!(stamps, vec![9, 7, 5]);

    let window = repo.find_all(1, 1).unwrap();
    assert_eq!(window.len(), 1);
    assert_eq!(window[0].created_at, 7);

    let past_end = repo.find_all(10, 5).unwrap();
    assert!(past_end.is_empty());
}

#[test]
fn test_update_missing_id_is_noop() {
    let mut repo = InMemoryUserRepository::new();
    repo.create(&account("a", "a@example.com", 1)).unwrap();
    let patch = UserPatch { username: Some("renamed".into()), email: None, updated_at: 2 };
    repo.update("missing", &patch).unwrap();
    let found = repo.find_by_id("a").unwrap().unwrap();
    assert_eq!(found.username, "someone");
}

#[test]
fn test_update_own_email_is_not_a_conflict() {
    let mut repo = InMemoryUserRepository::new();
    repo.create(&account("a", "a@example.com", 1)).unwrap();
    let patch = UserPatch { username: None, email: Some("a@example.com".into()), updated_at: 2 };
    repo.update("a", &patch).unwrap();
    let found = repo.find_by_id("a").unwrap().unwrap();
    assert_eq!(found.email, "a@example.com");
    assert_eq!(found.updated_at, 2);
}

#[test]
fn test_update_rejects_other_accounts_email() {
    let mut repo = InMemoryUserRepository::new();
    repo.create(&account("a", "a@example.com", 1)).unwrap();
    repo.create(&account("b", "b@example.com", 2)).unwrap();
    let patch = UserPatch { username: None, email: Some("b@example.com".into()), updated_at: 3 };
    assert!(matches!(repo.update("a", &patch), Err(RepoError::Duplicate)));
    assert_eq!(repo.find_by_id("a").unwrap().unwrap().email, "a@example.com");
}

#[test]
fn test_find_by_email() {
    let mut repo = InMemoryUserRepository::new();
    repo.create(&account("a", "a@example.com", 1)).unwrap();
    assert!(repo.find_by_email("a@example.com").unwrap().is_some());
    assert!(repo.find_by_email("other@example.com").unwrap().is_none());
}
