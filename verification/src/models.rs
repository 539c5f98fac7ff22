//! The persisted account entity.

use vstd::prelude::*;

verus! {

/// A persisted account. `id` is assigned at creation and immutable
/// afterwards; `email` must be unique across all accounts;
/// `password_hash` is opaque and never exposed outward; the timestamps
/// are Unix milliseconds, UTC.
#[derive(Debug)]
pub struct User {
    pub id: Option<String>,
    pub username: String,
    pub email: String,
    pub password_hash: String,
    pub role: String,
    pub created_at: i64,
    pub updated_at: i64,
}

impl Clone for User {
    /// An exact copy, field by field.
    fn clone(&self) -> (r: Self)
        ensures
            r == *self,
    {
        User {
            id: match &self.id {
                Some(s) => Some(s.clone()),
                None => None,
            },
            username: self.username.clone(),
            email: self.email.clone(),
            password_hash: self.password_hash.clone(),
            role: self.role.clone(),
            created_at: self.created_at,
            updated_at: self.updated_at,
        }
    }
}

} // verus!
