//! Registration and login: shape validation at the boundary, then the
//! service, then — for login — a bearer token minted from the
//! authenticated account.

use vstd::prelude::*;

use crate::credentials::{issue_token, jwt_of, spec_claims_json};
use crate::dtos::{
    check_email, email_valid, is_view_of, spec_valid_registration, CreateUser, UserResponse,
};
use crate::error::AppError;
use crate::models::User;
use crate::repository::{has_email, IUserRepository};
use crate::service::{auth_succeeds, spec_registered, UserService};

verus! {

/// A login request: the email names the account, the password is
/// checked against its stored hash.
#[derive(Debug, Clone)]
pub struct LoginRequest {
    pub email: String,
    pub password: String,
}

impl LoginRequest {
    /// Checks the request's shape: the email must be syntactically
    /// valid; the password's content is the credential check's concern.
    pub fn validate(&self) -> (r: Result<(), AppError>)
        ensures
            r is Ok <==> email_valid(self.email@),
            r is Err ==> r matches Err(AppError::ValidationError(_)),
    {
        if !check_email(self.email.as_str()) {
            Err(AppError::ValidationError(String::from_str("Invalid email format")))
        } else {
            Ok(())
        }
    }
}

/// What a successful login returns: the bearer token and the outward
/// view of the account it names.
#[derive(Debug, Clone)]
pub struct AuthResponse {
    pub token: String,
    pub user: UserResponse,
}

/// Everything a successful login guarantees: the email was well-formed
/// and authenticated, the returned view projects the very account that
/// carries the email, and the token is the signed claims of that
/// view's id and role for some expiry.
pub open spec fn spec_login_ok(
    s: Seq<User>,
    email: Seq<char>,
    password: Seq<char>,
    secret: Seq<char>,
    resp: AuthResponse,
) -> bool {
    &&& email_valid(email)
    &&& auth_succeeds(s, email, password)
    &&& exists|i: int|
        0 <= i < s.len() && (#[trigger] s[i]).email@ == email && is_view_of(resp.user, s[i])
    &&& exists|exp: int|
        resp.token@ == jwt_of(
            #[trigger] spec_claims_json(resp.user.id@, resp.user.role@, exp),
            secret,
        )
}

/// Registers an account from an unvalidated request: the shape rules
/// are checked first and violations answer `ValidationError`; a valid
/// input is handed to the service.
pub fn register<R: IUserRepository>(service: &mut UserService<R>, input: CreateUser) -> (r: Result<
    UserResponse,
    AppError,
>)
    requires
        old(service).wf(),
    ensures
        final(service).wf(),
        final(service).reliable() == old(service).reliable(),
        match r {
            Ok(view) => {
                &&& spec_valid_registration(input)
                &&& !has_email(old(service).accounts(), input.email@)
                &&& spec_registered(old(service).accounts(), final(service).accounts(), input, view)
                &&& view.id@.len() == 36
                &&& auth_succeeds(final(service).accounts(), input.email@, input.password@)
            },
            Err(AppError::ValidationError(_)) => {
                &&& final(service).accounts() == old(service).accounts()
                &&& !spec_valid_registration(input)
            },
            Err(AppError::UserAlreadyExists) => {
                &&& final(service).accounts() == old(service).accounts()
                &&& spec_valid_registration(input)
                &&& has_email(old(service).accounts(), input.email@)
            },
            Err(AppError::AuthError) => {
                &&& final(service).accounts() == old(service).accounts()
                &&& spec_valid_registration(input)
            },
            Err(AppError::DatabaseError(_)) => {
                &&& final(service).accounts() == old(service).accounts()
                &&& spec_valid_registration(input)
            },
            Err(_) => false,
        },
        !spec_valid_registration(input) ==> r matches Err(AppError::ValidationError(_)),
        old(service).reliable() && spec_valid_registration(input) && has_email(
            old(service).accounts(),
            input.email@,
        ) ==> r matches Err(AppError::UserAlreadyExists),
{
    match input.validate() {
        Ok(_) => {},
        Err(e) => {
            return Err(e);
        },
    }
    service.create_user(input)
}

/// Logs a credential pair in: a malformed email is rejected before any
/// lookup, an unknown email and a wrong password both answer
/// `InvalidCredentials`, and a verified pair yields a signed bearer
/// token over the account's id and role, beside its outward view.
pub fn login<R: IUserRepository>(
    service: &UserService<R>,
    request: &LoginRequest,
    jwt_secret: &str,
) -> (r: Result<AuthResponse, AppError>)
    requires
        service.wf(),
    ensures
        match r {
            Ok(resp) => spec_login_ok(
                service.accounts(),
                request.email@,
                request.password@,
                jwt_secret@,
                resp,
            ),
            Err(AppError::ValidationError(_)) => !email_valid(request.email@),
            Err(AppError::InvalidCredentials) => {
                &&& email_valid(request.email@)
                &&& !auth_succeeds(service.accounts(), request.email@, request.password@)
            },
            Err(AppError::AuthError) => {
                // Signing can only fail after the credentials verified.
                &&& email_valid(request.email@)
                &&& auth_succeeds(service.accounts(), request.email@, request.password@)
            },
            Err(AppError::DatabaseError(_)) => {
                &&& email_valid(request.email@)
                &&& !service.reliable()
            },
            Err(_) => false,
        },
        !email_valid(request.email@) ==> r matches Err(AppError::ValidationError(_)),
{
    match request.validate() {
        Ok(_) => {},
        Err(e) => {
            return Err(e);
        },
    }
    let user = match service.authenticate(request.email.as_str(), request.password.as_str()) {
        Ok(u) => u,
        Err(e) => {
            return Err(e);
        },
    };
    proof {
        let i = choose|i: int|
            0 <= i < service.accounts().len() && service.accounts()[i] == user;
        assert(service.accounts()[i].id is Some);
        assert(auth_succeeds(service.accounts(), request.email@, request.password@));
    }
    let token = match issue_token(
        user.id.as_ref().unwrap().as_str(),
        user.role.as_str(),
        jwt_secret,
    ) {
        Ok(t) => t,
        Err(e) => {
            return Err(e);
        },
    };
    let ghost u0 = user;
    let ghost sub_view = user.id->0@;
    let ghost role_view = user.role@;
    let view = UserResponse::from(user);
    proof {
        let i = choose|i: int|
            0 <= i < service.accounts().len() && service.accounts()[i] == u0;
        assert(is_view_of(view, service.accounts()[i]));
        assert(view.id@ == sub_view && view.role@ == role_view);
        let exp = choose|exp: int|
            token@ == jwt_of(#[trigger] spec_claims_json(sub_view, role_view, exp), jwt_secret@);
        assert(token@ == jwt_of(spec_claims_json(view.id@, view.role@, exp), jwt_secret@));
    }
    let resp = AuthResponse { token, user: view };
    proof {
        assert(exists|i: int|
            0 <= i < service.accounts().len() && (#[trigger] service.accounts()[i]).email@
                == request.email@ && is_view_of(resp.user, service.accounts()[i]));
        assert(exists|exp: int|
            resp.token@ == jwt_of(
                #[trigger] spec_claims_json(resp.user.id@, resp.user.role@, exp),
                jwt_secret@,
            ));
        assert(spec_login_ok(
            service.accounts(),
            request.email@,
            request.password@,
            jwt_secret@,
            resp,
        ));
    }
    Ok(resp)
}

} // verus!
