//! Validated inputs and the outward-safe projection of an account.

use vstd::prelude::*;

use crate::error::AppError;
use crate::models::User;

verus! {

/// A registration request. Valid when the username has at least three
/// characters, the email is syntactically valid and the password has at
/// least six characters.
#[derive(Debug, Clone)]
pub struct CreateUser {
    pub username: String,
    pub email: String,
    pub password: String,
}

/// A partial update. Absent fields are left untouched; present fields
/// obey the same shape rules as at registration.
#[derive(Debug, Clone)]
pub struct UpdateUser {
    pub username: Option<String>,
    pub email: Option<String>,
}

/// The outward-safe projection of an account: every field of [`User`]
/// except the password hash.
#[derive(Debug, Clone)]
pub struct UserResponse {
    pub id: String,
    pub username: String,
    pub email: String,
    pub role: String,
    pub created_at: i64,
    pub updated_at: i64,
}

/// Whether an email is syntactically valid, as the `validator` crate
/// defines it; a function of the characters alone.
pub uninterp spec fn email_valid(s: Seq<char>) -> bool;

/// Relies on validator's `ValidateEmail::validate_email`: a syntactic
/// check on the characters of the string alone.
#[verifier::external_body]
pub(crate) fn check_email(s: &str) -> (r: bool)
    ensures
        r == email_valid(s@),
{
    validator::ValidateEmail::validate_email(&s)
}

/// The id that an account projects outward: its assigned id, or the
/// empty string while none is assigned yet.
pub open spec fn spec_id_view(id: Option<String>) -> Seq<char> {
    match id {
        Some(s) => s@,
        None => Seq::empty(),
    }
}

/// `v` is the outward projection of `u`: the same fields, minus the hash.
pub open spec fn is_view_of(v: UserResponse, u: User) -> bool {
    &&& v.id@ == spec_id_view(u.id)
    &&& v.username@ == u.username@
    &&& v.email@ == u.email@
    &&& v.role@ == u.role@
    &&& v.created_at == u.created_at
    &&& v.updated_at == u.updated_at
}

/// The shape rules for a registration input.
pub open spec fn spec_valid_registration(input: CreateUser) -> bool {
    &&& input.username@.len() >= 3
    &&& email_valid(input.email@)
    &&& input.password@.len() >= 6
}

/// The shape rules for a partial update.
pub open spec fn spec_valid_update(input: UpdateUser) -> bool {
    &&& (input.username matches Some(n) ==> n@.len() >= 3)
    &&& (input.email matches Some(e) ==> email_valid(e@))
}

impl CreateUser {
    /// Checks the input's shape; the first violated rule, in field order,
    /// names the detail.
    pub fn validate(&self) -> (r: Result<(), AppError>)
        ensures
            r is Ok <==> spec_valid_registration(*self),
            r is Err ==> r matches Err(AppError::ValidationError(_)),
            self.username@.len() < 3 ==> (r matches Err(AppError::ValidationError(m))
                && m@ == "Username must be at least 3 characters"@),
            self.username@.len() >= 3 && !email_valid(self.email@) ==> (r matches
                Err(AppError::ValidationError(m)) && m@ == "Invalid email format"@),
            self.username@.len() >= 3 && email_valid(self.email@) && self.password@.len() < 6
                ==> (r matches Err(AppError::ValidationError(m))
                && m@ == "Password must be at least 6 characters"@),
    {
        if self.username.as_str().unicode_len() < 3 {
            Err(AppError::ValidationError(String::from_str("Username must be at least 3 characters")))
        } else if !check_email(self.email.as_str()) {
            Err(AppError::ValidationError(String::from_str("Invalid email format")))
        } else if self.password.as_str().unicode_len() < 6 {
            Err(AppError::ValidationError(String::from_str("Password must be at least 6 characters")))
        } else {
            Ok(())
        }
    }
}

impl UpdateUser {
    /// Checks the shape of whatever fields are present.
    pub fn validate(&self) -> (r: Result<(), AppError>)
        ensures
            r is Ok <==> spec_valid_update(*self),
            r is Err ==> r matches Err(AppError::ValidationError(_)),
    {
        if let Some(username) = &self.username {
            if username.as_str().unicode_len() < 3 {
                return Err(AppError::ValidationError(String::from_str(
                    "Username must be at least 3 characters",
                )));
            }
        }
        if let Some(email) = &self.email {
            if !check_email(email.as_str()) {
                return Err(AppError::ValidationError(String::from_str("Invalid email format")));
            }
        }
        Ok(())
    }
}

impl From<User> for UserResponse {
    /// Projects an account outward, dropping the password hash; an
    /// unassigned id projects as the empty string.
    fn from(user: User) -> (r: Self)
        ensures
            is_view_of(r, user),
    {
        UserResponse {
            id: match user.id {
                Some(s) => s,
                None => String::new(),
            },
            username: user.username,
            email: user.email,
            role: user.role,
            created_at: user.created_at,
            updated_at: user.updated_at,
        }
    }
}

impl vstd::std_specs::convert::FromSpecImpl<User> for UserResponse {
    open spec fn obeys_from_spec() -> bool {
        false
    }

    open spec fn from_spec(u: User) -> UserResponse {
        arbitrary()
    }
}

} // verus!
