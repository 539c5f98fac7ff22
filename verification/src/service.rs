//! The account service: register, authenticate, get, list and update,
//! over any repository implementing the port.
//!
//! Every operation's contract enumerates exactly which outcomes are
//! possible and what each one implies about the store. Where the
//! backend is reliable (cannot fail), success and each error are pinned
//! down exactly.

use vstd::prelude::*;

use crate::credentials::{
    generate_account_id, hash_password, now_millis, password_verifies, verify_password,
};
use crate::dtos::{is_view_of, CreateUser, UpdateUser, UserResponse};
use crate::error::AppError;
use crate::models::User;
use crate::pagination::{spec_total_pages, PaginationResult};
use crate::repository::{
    apply_patch, email_conflict, has_email, has_id, repo_wf, spec_user_id, spec_window,
    IUserRepository, RepoError, UserPatch,
};

verus! {

/// Authentication succeeds exactly when some stored account carries the
/// email and its hash verifies the password.
pub open spec fn auth_succeeds(s: Seq<User>, email: Seq<char>, password: Seq<char>) -> bool {
    exists|i: int|
        0 <= i < s.len() && (#[trigger] s[i]).email@ == email && password_verifies(
            password,
            s[i].password_hash@,
        )
}

/// The store after a successful registration: the old store with one
/// account inserted at position `k`, whose fields come from the input
/// and whose outward projection is `view`.
pub open spec fn spec_inserted_at(
    old_s: Seq<User>,
    new_s: Seq<User>,
    input: CreateUser,
    view: UserResponse,
    k: int,
) -> bool {
    let u = new_s[k];
    &&& new_s == old_s.insert(k, u)
    &&& u.id is Some
    &&& spec_user_id(u).len() == 36
    &&& u.username@ == input.username@
    &&& u.email@ == input.email@
    &&& u.role@ == "user"@
    &&& u.created_at == u.updated_at
    &&& u.password_hash@.len() == 60
    &&& password_verifies(input.password@, u.password_hash@)
    &&& is_view_of(view, u)
}

/// What a successful registration leaves behind, wherever the new
/// account landed in the order.
pub open spec fn spec_registered(
    old_s: Seq<User>,
    new_s: Seq<User>,
    input: CreateUser,
    view: UserResponse,
) -> bool {
    exists|k: int|
        0 <= k <= old_s.len() && #[trigger] spec_inserted_at(old_s, new_s, input, view, k)
}

/// The default page when none is asked for is 1; page 0 is floored to 1.
pub open spec fn spec_norm_page(page: Option<u64>) -> u64 {
    match page {
        Some(p) => if p == 0 {
            1u64
        } else {
            p
        },
        None => 1u64,
    }
}

/// The default limit when none is asked for is 10; limit 0 is floored
/// to 1.
pub open spec fn spec_norm_limit(limit: Option<u64>) -> u64 {
    match limit {
        Some(l) => if l == 0 {
            1u64
        } else {
            l
        },
        None => 10u64,
    }
}

/// The number of rows before the requested page: `(page - 1) * limit`,
/// saturated rather than wrapped when it leaves the window type.
pub open spec fn spec_skip(p: u64, l: u64) -> u64
    recommends
        p >= 1,
{
    if (p - 1) * l > u64::MAX {
        u64::MAX
    } else {
        ((p - 1) * l) as u64
    }
}

/// The service: pure orchestration over an injected repository. It
/// holds no mutable state of its own; everything lives behind the port.
pub struct UserService<R: IUserRepository> {
    repo: R,
}

impl<R: IUserRepository> UserService<R> {
    /// The stored accounts, as the repository serves them.
    pub closed spec fn accounts(&self) -> Seq<User> {
        self.repo.accounts()
    }

    /// Whether the injected backend never fails.
    pub closed spec fn reliable(&self) -> bool {
        self.repo.reliable()
    }

    /// The standing invariant of the underlying store.
    pub open spec fn wf(&self) -> bool {
        repo_wf(self.accounts())
    }

    /// Wires the service to a repository.
    pub fn new(repo: R) -> (s: Self)
        ensures
            s.accounts() == repo.accounts(),
            s.reliable() == repo.reliable(),
    {
        UserService { repo }
    }

    /// Registers an account: a fresh id, the default role, both
    /// timestamps set to the same now, the password stored only as its
    /// hash. An email already present fails with `UserAlreadyExists`
    /// and writes nothing. The input's shape is the caller's contract:
    /// the transport layer validates before the service runs.
    pub fn create_user(&mut self, input: CreateUser) -> (r: Result<UserResponse, AppError>)
        requires
            old(self).wf(),
            input.username@.len() >= 3,
            input.password@.len() >= 6,
        ensures
            final(self).wf(),
            final(self).reliable() == old(self).reliable(),
            match r {
                Ok(view) => {
                    &&& !has_email(old(self).accounts(), input.email@)
                    &&& spec_registered(old(self).accounts(), final(self).accounts(), input, view)
                    &&& final(self).accounts().len() == old(self).accounts().len() + 1
                    &&& view.id@.len() == 36
                    &&& view.username@ == input.username@
                    &&& view.email@ == input.email@
                    &&& view.role@ == "user"@
                    &&& view.created_at == view.updated_at
                    &&& auth_succeeds(final(self).accounts(), input.email@, input.password@)
                },
                Err(AppError::UserAlreadyExists) => {
                    &&& final(self).accounts() == old(self).accounts()
                    &&& has_email(old(self).accounts(), input.email@)
                },
                Err(AppError::AuthError) => {
                    &&& final(self).accounts() == old(self).accounts()
                    &&& !has_email(old(self).accounts(), input.email@)
                },
                Err(AppError::DatabaseError(_)) => final(self).accounts() == old(self).accounts(),
                Err(_) => false,
            },
            old(self).reliable() && has_email(old(self).accounts(), input.email@) ==> r matches Err(
                AppError::UserAlreadyExists,
            ),
    {
        let ghost old_s = old(self).accounts();
        match self.repo.find_by_email(input.email.as_str()) {
            Ok(Some(_)) => {
                return Err(AppError::UserAlreadyExists);
            },
            Ok(None) => {},
            Err(RepoError::Backend(m)) => {
                return Err(AppError::DatabaseError(m));
            },
            Err(RepoError::Duplicate) => {
                return Err(AppError::DatabaseError(String::new()));
            },
        }
        let password_hash = match hash_password(input.password.as_str()) {
            Ok(h) => h,
            Err(_) => {
                return Err(AppError::AuthError);
            },
        };
        let user_id = generate_account_id();
        let now = now_millis();
        let user = User {
            id: Some(user_id),
            username: input.username,
            email: input.email,
            password_hash,
            role: String::from_str("user"),
            created_at: now,
            updated_at: now,
        };
        match self.repo.create(&user) {
            Ok(_) => {},
            Err(RepoError::Duplicate) => {
                // The freshly drawn id collided with a stored one: the
                // storage constraint rejected the write.
                return Err(AppError::DatabaseError(String::from_str("duplicate id")));
            },
            Err(RepoError::Backend(m)) => {
                return Err(AppError::DatabaseError(m));
            },
        }
        let ghost u0 = user;
        let view = UserResponse::from(user);
        proof {
            let k = choose|k: int|
                0 <= k <= old_s.len() && self.accounts() == #[trigger] old_s.insert(k, u0);
            old_s.insert_ensures(k, u0);
            assert(self.accounts()[k] == u0);
            assert(spec_inserted_at(old_s, self.accounts(), input, view, k));
            assert(auth_succeeds(self.accounts(), input.email@, input.password@));
        }
        Ok(view)
    }

    /// Reads one account by id, projected outward; an absent id is
    /// `NotFound`.
    pub fn get_user(&self, id: &str) -> (r: Result<UserResponse, AppError>)
        requires
            self.wf(),
        ensures
            match r {
                Ok(view) => exists|i: int|
                    0 <= i < self.accounts().len() && spec_user_id(#[trigger] self.accounts()[i])
                        == id@ && is_view_of(view, self.accounts()[i]),
                Err(AppError::NotFound) => !has_id(self.accounts(), id@),
                Err(AppError::DatabaseError(_)) => !self.reliable(),
                Err(_) => false,
            },
            self.reliable() ==> (r is Ok <==> has_id(self.accounts(), id@)),
    {
        match self.repo.find_by_id(id) {
            Ok(Some(u)) => {
                let ghost u0 = u;
                let view = UserResponse::from(u);
                proof {
                    let i = choose|i: int|
                        0 <= i < self.accounts().len() && self.accounts()[i] == u0;
                    assert(spec_user_id(self.accounts()[i]) == id@);
                    assert(is_view_of(view, self.accounts()[i]));
                }
                Ok(view)
            },
            Ok(None) => Err(AppError::NotFound),
            Err(RepoError::Backend(m)) => Err(AppError::DatabaseError(m)),
            Err(RepoError::Duplicate) => Err(AppError::DatabaseError(String::new())),
        }
    }

    /// Serves one page of accounts, newest first, with the paging
    /// metadata: absent page and limit fall back to 1 and 10, zeroes
    /// are floored to 1, and a page past the end is an empty window
    /// with unchanged metadata, not an error.
    pub fn list_users(&self, page: Option<u64>, limit: Option<u64>) -> (r: Result<
        PaginationResult<UserResponse>,
        AppError,
    >)
        requires
            self.wf(),
        ensures
            match r {
                Ok(pr) => {
                    let p = spec_norm_page(page);
                    let l = spec_norm_limit(limit);
                    let skip = spec_skip(p, l);
                    let lim = if l > i64::MAX as u64 {
                        i64::MAX as int
                    } else {
                        l as int
                    };
                    let window = spec_window(self.accounts(), skip as int, lim);
                    &&& pr.page == p
                    &&& pr.limit == l
                    &&& pr.total as nat == self.accounts().len()
                    &&& pr.total_pages as int == spec_total_pages(
                        self.accounts().len() as int,
                        l as int,
                    )
                    &&& pr.data@.len() == window.len()
                    &&& forall|j: int|
                        0 <= j < pr.data@.len() ==> is_view_of(#[trigger] pr.data@[j], window[j])
                },
                Err(AppError::DatabaseError(_)) => !self.reliable(),
                Err(_) => false,
            },
            self.reliable() ==> r is Ok,
    {
        let p: u64 = match page {
            Some(p) => if p == 0 {
                1
            } else {
                p
            },
            None => 1,
        };
        let l: u64 = match limit {
            Some(l) => if l == 0 {
                1
            } else {
                l
            },
            None => 10,
        };
        let skip: u64 = if p - 1 > u64::MAX / l {
            u64::MAX
        } else {
            proof {
                assert((p - 1) * l <= (u64::MAX as int / l as int) * l <= u64::MAX) by (nonlinear_arith)
                    requires
                        l >= 1,
                        p >= 1,
                        p - 1 <= u64::MAX as int / l as int,
                ;
            }
            (p - 1) * l
        };
        proof {
            if p - 1 > u64::MAX / l {
                let q = u64::MAX as int / l as int;
                vstd::arithmetic::div_mod::lemma_remainder_upper(u64::MAX as int, l as int);
                assert((p - 1) as int * l as int >= (q + 1) * l as int && (q + 1) * l as int == q
                    * l as int + l as int) by (nonlinear_arith)
                    requires
                        l as int >= 1,
                        (p - 1) as int >= q + 1,
                ;
            }
            assert(skip == spec_skip(p, l));
        }
        let lim_i: i64 = if l > i64::MAX as u64 {
            i64::MAX
        } else {
            l as i64
        };
        let users = match self.repo.find_all(skip, lim_i) {
            Ok(v) => v,
            Err(RepoError::Backend(m)) => {
                return Err(AppError::DatabaseError(m));
            },
            Err(RepoError::Duplicate) => {
                return Err(AppError::DatabaseError(String::new()));
            },
        };
        let total = match self.repo.count() {
            Ok(n) => n,
            Err(RepoError::Backend(m)) => {
                return Err(AppError::DatabaseError(m));
            },
            Err(RepoError::Duplicate) => {
                return Err(AppError::DatabaseError(String::new()));
            },
        };
        let ghost window = users@;
        let n = users.len();
        let mut data: Vec<UserResponse> = Vec::new();
        let mut i: usize = 0;
        while i < n
            invariant
                0 <= i <= n,
                n == users@.len(),
                users@ == window,
                data@.len() == i,
                forall|j: int| 0 <= j < i ==> is_view_of(#[trigger] data@[j], window[j]),
            decreases n - i,
        {
            data.push(UserResponse::from(users[i].clone()));
            i += 1;
        }
        Ok(PaginationResult::new(data, p, l, total))
    }

    /// Applies a partial update to the account carrying `id`, stamping
    /// its update time; absent fields stay. A new email that another
    /// account already carries fails with `UserAlreadyExists` and
    /// changes nothing — the target's own current email is deliberately
    /// not a conflict with itself. A missing id is a silent no-op.
    pub fn update_user(&mut self, id: &str, input: UpdateUser) -> (r: Result<(), AppError>)
        requires
            old(self).wf(),
        ensures
            final(self).wf(),
            final(self).reliable() == old(self).reliable(),
            match r {
                Ok(_) => {
                    &&& (input.email matches Some(e) ==> !email_conflict(
                        old(self).accounts(),
                        id@,
                        e@,
                    ))
                    &&& exists|t: i64|
                        final(self).accounts() == #[trigger] apply_patch(
                            old(self).accounts(),
                            id@,
                            (UserPatch { username: input.username, email: input.email, updated_at: t }),
                        )
                },
                Err(AppError::UserAlreadyExists) => {
                    &&& final(self).accounts() == old(self).accounts()
                    &&& input.email matches Some(e) && email_conflict(
                        old(self).accounts(),
                        id@,
                        e@,
                    )
                },
                Err(AppError::DatabaseError(_)) => {
                    &&& final(self).accounts() == old(self).accounts()
                    &&& !old(self).reliable()
                },
                Err(_) => false,
            },
            old(self).reliable() && (input.email matches Some(e) && email_conflict(
                old(self).accounts(),
                id@,
                e@,
            )) ==> r matches Err(AppError::UserAlreadyExists),
    {
        let ghost s = old(self).accounts();
        if let Some(email) = &input.email {
            match self.repo.find_by_email(email.as_str()) {
                Ok(Some(u)) => {
                    proof {
                        let i = choose|i: int| 0 <= i < s.len() && s[i] == u;
                        assert(s[i].id is Some);
                    }
                    let id_string = String::from_str(id);
                    if !u.id.as_ref().unwrap().eq(&id_string) {
                        proof {
                            let i = choose|i: int| 0 <= i < s.len() && s[i] == u;
                            assert(email_conflict(s, id@, email@));
                        }
                        return Err(AppError::UserAlreadyExists);
                    }
                    proof {
                        // The account carrying the email is the target
                        // itself; emails are unique, so nothing else
                        // carries it and there is no conflict.
                        let i = choose|i: int| 0 <= i < s.len() && s[i] == u;
                        assert forall|j: int|
                            0 <= j < s.len() && (#[trigger] s[j]).email@ == email@ implies j
                            == i by {
                            if j != i {
                                assert(s[j].email@ != s[i].email@);
                            }
                        }
                        assert(!email_conflict(s, id@, email@));
                    }
                },
                Ok(None) => {
                    proof {
                        if email_conflict(s, id@, email@) {
                            let i = choose|i: int|
                                0 <= i < s.len() && (#[trigger] s[i]).email@ == email@
                                    && spec_user_id(s[i]) != id@;
                            assert(has_email(s, email@));
                        }
                    }
                },
                Err(RepoError::Backend(m)) => {
                    return Err(AppError::DatabaseError(m));
                },
                Err(RepoError::Duplicate) => {
                    return Err(AppError::DatabaseError(String::new()));
                },
            }
        }
        let now = now_millis();
        let patch = UserPatch { username: input.username, email: input.email, updated_at: now };
        match self.repo.update(id, &patch) {
            Ok(_) => {
                proof {
                    assert(final(self).accounts() == apply_patch(s, id@, patch));
                }
                Ok(())
            },
            Err(RepoError::Duplicate) => {
                // Unreachable: the conflict check above already ruled a
                // colliding email out, and the port only rejects for one.
                Err(AppError::UserAlreadyExists)
            },
            Err(RepoError::Backend(m)) => Err(AppError::DatabaseError(m)),
        }
    }

    /// Checks a credential pair. An unknown email and a wrong password
    /// fail with the identical `InvalidCredentials`, so a caller cannot
    /// probe which emails exist. On success the full account crosses
    /// the boundary — the caller mints a token from it and must project
    /// it to a view before showing it outward.
    pub fn authenticate(&self, email: &str, password: &str) -> (r: Result<User, AppError>)
        requires
            self.wf(),
        ensures
            match r {
                Ok(u) => {
                    &&& self.accounts().contains(u)
                    &&& u.email@ == email@
                    &&& password_verifies(password@, u.password_hash@)
                },
                Err(AppError::InvalidCredentials) => !auth_succeeds(
                    self.accounts(),
                    email@,
                    password@,
                ),
                Err(AppError::DatabaseError(_)) => !self.reliable(),
                Err(_) => false,
            },
            self.reliable() ==> (r is Ok <==> auth_succeeds(self.accounts(), email@, password@)),
    {
        let ghost s = self.accounts();
        let u = match self.repo.find_by_email(email) {
            Ok(Some(u)) => u,
            Ok(None) => {
                proof {
                    if auth_succeeds(s, email@, password@) {
                        let i = choose|i: int|
                            0 <= i < s.len() && (#[trigger] s[i]).email@ == email@
                                && password_verifies(password@, s[i].password_hash@);
                        assert(has_email(s, email@));
                    }
                }
                return Err(AppError::InvalidCredentials);
            },
            Err(RepoError::Backend(m)) => {
                return Err(AppError::DatabaseError(m));
            },
            Err(RepoError::Duplicate) => {
                return Err(AppError::DatabaseError(String::new()));
            },
        };
        if !verify_password(password, u.password_hash.as_str()) {
            proof {
                // Emails are unique, so the found account is the only
                // candidate; its hash does not verify.
                let i = choose|i: int| 0 <= i < s.len() && s[i] == u;
                if auth_succeeds(s, email@, password@) {
                    let j = choose|j: int|
                        0 <= j < s.len() && (#[trigger] s[j]).email@ == email@
                            && password_verifies(password@, s[j].password_hash@);
                    if i != j {
                        assert(s[i].email@ != s[j].email@);
                    }
                }
            }
            return Err(AppError::InvalidCredentials);
        }
        proof {
            let i = choose|i: int| 0 <= i < s.len() && s[i] == u;
            assert(auth_succeeds(s, email@, password@));
        }
        Ok(u)
    }
}

/// An unknown email and a wrong password are one and the same outcome:
/// under the store invariant, if no stored account both carries the
/// email and verifies the password — whether because the email is
/// absent or because the password is wrong for it — authentication
/// cannot succeed, and `authenticate` answers `InvalidCredentials`
/// either way.
pub proof fn lemma_invalid_credentials_indistinguishable(
    s: Seq<User>,
    email: Seq<char>,
    password: Seq<char>,
)
    requires
        repo_wf(s),
        !has_email(s, email) || (forall|i: int|
            0 <= i < s.len() ==> ((#[trigger] s[i]).email@ == email ==> !password_verifies(
                password,
                s[i].password_hash@,
            ))),
    ensures
        !auth_succeeds(s, email, password),
{
    if auth_succeeds(s, email, password) {
        let i = choose|i: int|
            0 <= i < s.len() && (#[trigger] s[i]).email@ == email && password_verifies(
                password,
                s[i].password_hash@,
            );
        assert(has_email(s, email));
    }
}

/// Register-then-get round trip: ids are unique under the store
/// invariant, so a lookup of the id a registration returned can only
/// land on the account that registration inserted, whose view carries
/// exactly the registered username, email and role.
pub proof fn lemma_get_after_register(
    old_s: Seq<User>,
    new_s: Seq<User>,
    input: CreateUser,
    view: UserResponse,
)
    requires
        repo_wf(new_s),
        spec_registered(old_s, new_s, input, view),
    ensures
        has_id(new_s, view.id@),
        forall|i: int|
            0 <= i < new_s.len() ==> (spec_user_id(#[trigger] new_s[i]) == view.id@ ==> is_view_of(
                view,
                new_s[i],
            )),
{
    let k = choose|k: int| 0 <= k <= old_s.len() && spec_inserted_at(old_s, new_s, input, view, k);
    old_s.insert_ensures(k, new_s[k]);
    assert(spec_user_id(new_s[k]) == view.id@);
    assert(has_id(new_s, view.id@));
    assert forall|i: int|
        0 <= i < new_s.len() && spec_user_id(#[trigger] new_s[i]) == view.id@ implies is_view_of(
        view,
        new_s[i],
    ) by {
        if i != k {
            assert(spec_user_id(new_s[i]) != spec_user_id(new_s[k]));
        }
    }
}

/// A page past the last one asks for rows beyond the store's end: its
/// window is empty, while the metadata — total and page count — is
/// computed from the store alone and stands unchanged.
pub proof fn lemma_page_beyond_end_is_empty(s: Seq<User>, p: u64, l: u64, lim: int)
    requires
        l >= 1,
        lim >= 0,
        s.len() <= u64::MAX,
        p as int > spec_total_pages(s.len() as int, l as int),
    ensures
        spec_skip(p, l) >= s.len(),
        spec_window(s, spec_skip(p, l) as int, lim) == Seq::<User>::empty(),
{
    let n = s.len() as int;
    let tp = spec_total_pages(n, l as int);
    if n > 0 {
        vstd::arithmetic::div_mod::lemma_remainder_upper(n - 1, l as int);
        assert((p - 1) as int * l as int >= tp * l as int && tp * l as int == ((n - 1) / l as int)
            * l as int + l as int) by (nonlinear_arith)
            requires
                l as int >= 1,
                (p - 1) as int >= tp,
                tp == (n - 1) / l as int + 1,
        ;
    }
    assert(spec_window(s, spec_skip(p, l) as int, lim) =~= Seq::<User>::empty());
}

/// Update-then-get round trip: after an update of `id`, the account
/// carrying `id` shows the patched username and email, the stamped
/// update time, and its unchanged creation time.
pub proof fn lemma_get_after_update(s: Seq<User>, id: Seq<char>, p: UserPatch)
    ensures
        forall|i: int|
            0 <= i < s.len() ==> (spec_user_id(#[trigger] s[i]) == id ==> {
                let u = apply_patch(s, id, p)[i];
                &&& u.username@ == (match p.username {
                    Some(n) => n@,
                    None => s[i].username@,
                })
                &&& u.email@ == (match p.email {
                    Some(e) => e@,
                    None => s[i].email@,
                })
                &&& u.updated_at == p.updated_at
                &&& u.created_at == s[i].created_at
                &&& u.id == s[i].id
            }),
{
}

} // verus!
