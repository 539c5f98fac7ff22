//! The account repository port, and its in-memory reference
//! implementation.
//!
//! The port is storage-agnostic: the service depends only on this trait,
//! and a backend is injected at process startup. The port's contract
//! carries the storage-level uniqueness constraint on ids and emails: a
//! write that would duplicate either fails with [`RepoError::Duplicate`]
//! rather than going through, which is what makes the service's
//! check-then-act uniqueness test safe against racing writers.

use vstd::prelude::*;

use crate::dtos::spec_id_view;
use crate::models::User;

verus! {

/// A failure of the persistence layer.
#[derive(Debug, Clone)]
pub enum RepoError {
    /// The storage layer's uniqueness constraint rejected the write.
    Duplicate,
    /// The backend failed; the cause is preserved for logging.
    Backend(String),
}

/// The partial field set that an update writes: a present field
/// replaces, an absent one leaves the stored value, and `updated_at` is
/// always stamped.
#[derive(Debug, Clone)]
pub struct UserPatch {
    pub username: Option<String>,
    pub email: Option<String>,
    pub updated_at: i64,
}

/// The id an account carries, as text.
pub open spec fn spec_user_id(u: User) -> Seq<char> {
    spec_id_view(u.id)
}

/// The repository's standing invariant: every account has an id, ids
/// and emails are unique, and the order is newest first.
pub open spec fn repo_wf(s: Seq<User>) -> bool {
    &&& (forall|i: int| 0 <= i < s.len() ==> (#[trigger] s[i]).id is Some)
    &&& (forall|i: int, j: int|
        0 <= i < j < s.len() ==> spec_user_id(#[trigger] s[i]) != spec_user_id(#[trigger] s[j]))
    &&& (forall|i: int, j: int|
        0 <= i < j < s.len() ==> (#[trigger] s[i]).email@ != (#[trigger] s[j]).email@)
    &&& (forall|i: int, j: int|
        0 <= i < j < s.len() ==> (#[trigger] s[i]).created_at >= (#[trigger] s[j]).created_at)
}

/// Some stored account carries this email.
pub open spec fn has_email(s: Seq<User>, email: Seq<char>) -> bool {
    exists|i: int| 0 <= i < s.len() && (#[trigger] s[i]).email@ == email
}

/// Some stored account carries this id.
pub open spec fn has_id(s: Seq<User>, id: Seq<char>) -> bool {
    exists|i: int| 0 <= i < s.len() && spec_user_id(#[trigger] s[i]) == id
}

/// Some account other than the one with id `id` carries this email:
/// writing the email to `id` would collide. An account's own email is
/// deliberately not a conflict with itself.
pub open spec fn email_conflict(s: Seq<User>, id: Seq<char>, email: Seq<char>) -> bool {
    exists|i: int|
        0 <= i < s.len() && (#[trigger] s[i]).email@ == email && spec_user_id(s[i]) != id
}

/// One account with a patch applied: present fields replace, absent
/// fields stay, and the update stamp is taken from the patch.
pub open spec fn spec_merged(u: User, p: UserPatch) -> User {
    User {
        id: u.id,
        username: match p.username {
            Some(n) => n,
            None => u.username,
        },
        email: match p.email {
            Some(e) => e,
            None => u.email,
        },
        password_hash: u.password_hash,
        role: u.role,
        created_at: u.created_at,
        updated_at: p.updated_at,
    }
}

/// The whole store after an update of `id`: the account carrying `id`
/// (if any) is merged with the patch, every other account stands as it
/// was.
pub open spec fn apply_patch(s: Seq<User>, id: Seq<char>, p: UserPatch) -> Seq<User> {
    s.map(
        |i: int, u: User|
            if spec_user_id(u) == id {
                spec_merged(u, p)
            } else {
                u
            },
    )
}

/// The page window `[skip, skip + limit)` of a store, clipped to its
/// length.
pub open spec fn spec_window(s: Seq<User>, skip: int, limit: int) -> Seq<User>
    recommends
        skip >= 0,
        limit >= 0,
{
    let lo = if skip < s.len() {
        skip
    } else {
        s.len() as int
    };
    let hi = if skip + limit < s.len() {
        skip + limit
    } else {
        s.len() as int
    };
    s.subrange(lo, hi)
}

/// The account repository port. `accounts` is the stored sequence in
/// the order reads serve it (newest first); `reliable` says whether the
/// backend can fail — a backend failure is allowed only when it is
/// false, so an implementation that never fails proves it true and its
/// callers get unconditional answers.
pub trait IUserRepository: Sized {
    /// The stored accounts, newest first.
    spec fn accounts(&self) -> Seq<User>;

    /// Whether this backend never fails.
    spec fn reliable(&self) -> bool;

    /// Persists a new account. The storage layer enforces uniqueness of
    /// id and email: a write that would duplicate either is rejected
    /// with [`RepoError::Duplicate`], never applied.
    fn create(&mut self, user: &User) -> (r: Result<String, RepoError>)
        requires
            repo_wf(old(self).accounts()),
            user.id is Some,
        ensures
            repo_wf(final(self).accounts()),
            final(self).reliable() == old(self).reliable(),
            match r {
                Ok(id) => {
                    &&& id@ == spec_user_id(*user)
                    &&& !has_id(old(self).accounts(), spec_user_id(*user))
                    &&& !has_email(old(self).accounts(), user.email@)
                    &&& exists|k: int|
                        0 <= k <= old(self).accounts().len() && final(self).accounts()
                            == #[trigger] old(self).accounts().insert(k, *user)
                },
                Err(RepoError::Duplicate) => {
                    &&& final(self).accounts() == old(self).accounts()
                    &&& has_id(old(self).accounts(), spec_user_id(*user)) || has_email(
                        old(self).accounts(),
                        user.email@,
                    )
                },
                Err(RepoError::Backend(_)) => {
                    &&& final(self).accounts() == old(self).accounts()
                    &&& !old(self).reliable()
                },
            },
    ;

    /// Looks an account up by id.
    fn find_by_id(&self, id: &str) -> (r: Result<Option<User>, RepoError>)
        requires
            repo_wf(self.accounts()),
        ensures
            match r {
                Ok(Some(u)) => self.accounts().contains(u) && spec_user_id(u) == id@,
                Ok(None) => !has_id(self.accounts(), id@),
                Err(RepoError::Backend(_)) => !self.reliable(),
                Err(RepoError::Duplicate) => false,
            },
    ;

    /// Looks an account up by email.
    fn find_by_email(&self, email: &str) -> (r: Result<Option<User>, RepoError>)
        requires
            repo_wf(self.accounts()),
        ensures
            match r {
                Ok(Some(u)) => self.accounts().contains(u) && u.email@ == email@,
                Ok(None) => !has_email(self.accounts(), email@),
                Err(RepoError::Backend(_)) => !self.reliable(),
                Err(RepoError::Duplicate) => false,
            },
    ;

    /// Merges a partial field set into the account carrying `id`; a
    /// missing id is a silent no-op, as a matched-nothing write is. The
    /// storage layer rejects an email that another account already
    /// carries.
    fn update(&mut self, id: &str, patch: &UserPatch) -> (r: Result<(), RepoError>)
        requires
            repo_wf(old(self).accounts()),
        ensures
            repo_wf(final(self).accounts()),
            final(self).reliable() == old(self).reliable(),
            match r {
                Ok(_) => {
                    &&& final(self).accounts() == apply_patch(old(self).accounts(), id@, *patch)
                    &&& (patch.email matches Some(e) ==> !email_conflict(
                        old(self).accounts(),
                        id@,
                        e@,
                    ))
                },
                Err(RepoError::Duplicate) => {
                    &&& final(self).accounts() == old(self).accounts()
                    &&& patch.email matches Some(e) && email_conflict(
                        old(self).accounts(),
                        id@,
                        e@,
                    )
                },
                Err(RepoError::Backend(_)) => {
                    &&& final(self).accounts() == old(self).accounts()
                    &&& !old(self).reliable()
                },
            },
    ;

    /// Serves the page window `[skip, skip + limit)` of the store,
    /// newest first.
    fn find_all(&self, skip: u64, limit: i64) -> (r: Result<Vec<User>, RepoError>)
        requires
            repo_wf(self.accounts()),
            limit >= 0,
        ensures
            match r {
                Ok(v) => v@ == spec_window(self.accounts(), skip as int, limit as int),
                Err(RepoError::Backend(_)) => !self.reliable(),
                Err(RepoError::Duplicate) => false,
            },
    ;

    /// Counts all stored accounts.
    fn count(&self) -> (r: Result<u64, RepoError>)
        requires
            repo_wf(self.accounts()),
        ensures
            match r {
                Ok(n) => n as nat == self.accounts().len(),
                Err(RepoError::Backend(_)) => !self.reliable(),
                Err(RepoError::Duplicate) => false,
            },
    ;
}

/// The reference backend: a vector kept newest-first, with the port's
/// uniqueness constraint checked on every write. It never fails, so its
/// `reliable` is true and every operation answers.
pub struct InMemoryUserRepository {
    accounts: Vec<User>,
}

impl InMemoryUserRepository {
    /// An empty store.
    pub fn new() -> (r: Self)
        ensures
            r.accounts() == Seq::<User>::empty(),
            r.reliable(),
    {
        InMemoryUserRepository { accounts: Vec::new() }
    }
}

impl IUserRepository for InMemoryUserRepository {
    closed spec fn accounts(&self) -> Seq<User> {
        self.accounts@
    }

    open spec fn reliable(&self) -> bool {
        true
    }

    fn create(&mut self, user: &User) -> (r: Result<String, RepoError>) {
        let uid: &String = self.duplicate_guard(user)?;
        // No duplicate id or email: find the insert position that keeps
        // the store sorted newest first.
        let ghost s = self.accounts@;
        let mut k: usize = 0;
        while k < self.accounts.len() && self.accounts[k].created_at >= user.created_at
            invariant
                0 <= k <= s.len(),
                s == self.accounts@,
                repo_wf(s),
                forall|j: int| 0 <= j < k ==> (#[trigger] s[j]).created_at >= user.created_at,
            decreases self.accounts.len() - k,
        {
            k += 1;
        }
        self.accounts.insert(k, user.clone());
        proof {
            s.insert_ensures(k as int, *user);
            let t = self.accounts@;
            assert(t == s.insert(k as int, *user));
            assert forall|i: int, j: int| 0 <= i < j < t.len() implies spec_user_id(
                #[trigger] t[i],
            ) != spec_user_id(#[trigger] t[j]) && t[i].email@ != t[j].email@ && t[i].created_at
                >= t[j].created_at by {
                let oi = if i < k { i } else { i - 1 };
                let oj = if j <= k { j - 1 } else { j - 1 };
                if i == k {
                    assert(t[i] == *user);
                    assert(t[j] == s[j - 1]);
                } else if j == k {
                    assert(t[j] == *user);
                    assert(t[i] == s[i]);
                } else if j < k {
                    assert(t[i] == s[i] && t[j] == s[j]);
                } else if i > k {
                    assert(t[i] == s[i - 1] && t[j] == s[j - 1]);
                } else {
                    assert(t[i] == s[i] && t[j] == s[j - 1]);
                }
            }
            assert forall|i: int| 0 <= i < t.len() implies (#[trigger] t[i]).id is Some by {
                if i < k {
                    assert(t[i] == s[i]);
                } else if i == k {
                    assert(t[i] == *user);
                } else {
                    assert(t[i] == s[i - 1]);
                }
            }
            assert(repo_wf(t));
        }
        Ok(uid.clone())
    }

    fn find_by_id(&self, id: &str) -> (r: Result<Option<User>, RepoError>) {
        let id_string = String::from_str(id);
        let n = self.accounts.len();
        let mut i: usize = 0;
        while i < n
            invariant
                0 <= i <= n,
                n == self.accounts@.len(),
                repo_wf(self.accounts@),
                id_string@ == id@,
                forall|j: int| 0 <= j < i ==> spec_user_id(#[trigger] self.accounts@[j]) != id@,
            decreases n - i,
        {
            let u = &self.accounts[i];
            if u.id.as_ref().unwrap().eq(&id_string) {
                return Ok(Some(u.clone()));
            }
            i += 1;
        }
        Ok(None)
    }

    fn find_by_email(&self, email: &str) -> (r: Result<Option<User>, RepoError>) {
        let email_string = String::from_str(email);
        let n = self.accounts.len();
        let mut i: usize = 0;
        while i < n
            invariant
                0 <= i <= n,
                n == self.accounts@.len(),
                email_string@ == email@,
                forall|j: int| 0 <= j < i ==> (#[trigger] self.accounts@[j]).email@ != email@,
            decreases n - i,
        {
            let u = &self.accounts[i];
            if u.email.eq(&email_string) {
                return Ok(Some(u.clone()));
            }
            i += 1;
        }
        Ok(None)
    }

    fn update(&mut self, id: &str, patch: &UserPatch) -> (r: Result<(), RepoError>) {
        let ghost s = self.accounts@;
        let id_string = String::from_str(id);
        // The storage-level uniqueness constraint: a new email may not
        // collide with a different account's email.
        if let Some(email) = &patch.email {
            let n = self.accounts.len();
            let mut i: usize = 0;
            while i < n
                invariant
                    0 <= i <= n,
                    n == s.len(),
                    s == self.accounts@,
                    s == old(self).accounts@,
                    repo_wf(s),
                    id_string@ == id@,
                    patch.email == Some(*email),
                    forall|j: int|
                        0 <= j < i ==> !((#[trigger] s[j]).email@ == email@ && spec_user_id(s[j])
                            != id@),
                decreases n - i,
            {
                let u = &self.accounts[i];
                if u.email.eq(email) && !u.id.as_ref().unwrap().eq(&id_string) {
                    proof {
                        assert(patch.email is Some);
                        assert(patch.email->0@ == email@);
                        assert(s[i as int].email@ == email@);
                        assert(spec_user_id(s[i as int]) != id@);
                        assert(email_conflict(s, id@, email@));
                    }
                    return Err(RepoError::Duplicate);
                }
                i += 1;
            }
            assert(!email_conflict(s, id@, email@));
        }
        // Find the account carrying the id and merge in place.
        let n = self.accounts.len();
        let mut i: usize = 0;
        while i < n
            invariant
                0 <= i <= n,
                n == s.len(),
                s == self.accounts@,
                s == old(self).accounts@,
                repo_wf(s),
                id_string@ == id@,
                patch.email matches Some(e) ==> !email_conflict(s, id@, e@),
                forall|j: int| 0 <= j < i ==> spec_user_id(#[trigger] s[j]) != id@,
            decreases n - i,
        {
            let found = self.accounts[i].id.as_ref().unwrap().eq(&id_string);
            if found {
                let u = &self.accounts[i];
                let merged = User {
                    id: u.id.clone(),
                    username: match &patch.username {
                        Some(v) => v.clone(),
                        None => u.username.clone(),
                    },
                    email: match &patch.email {
                        Some(v) => v.clone(),
                        None => u.email.clone(),
                    },
                    password_hash: u.password_hash.clone(),
                    role: u.role.clone(),
                    created_at: u.created_at,
                    updated_at: patch.updated_at,
                };
                assert(merged == spec_merged(s[i as int], *patch));
                self.accounts[i] = merged;
                proof {
                    let t = self.accounts@;
                    assert forall|j: int| 0 <= j < t.len() implies t[j] == apply_patch(
                        s,
                        id@,
                        *patch,
                    )[j] by {
                        if j != i {
                            assert(t[j] == s[j]);
                            assert(spec_user_id(s[j]) != id@);
                        }
                    }
                    assert(t =~= apply_patch(s, id@, *patch));
                    assert forall|a: int, b: int| 0 <= a < b < t.len() implies (#[trigger] t[a]).email@
                        != (#[trigger] t[b]).email@ by {
                        if a == i {
                            if patch.email is Some {
                                assert(s[b].email@ != patch.email->0@) by {
                                    assert(spec_user_id(s[b]) != id@);
                                }
                            }
                        } else if b == i {
                            if patch.email is Some {
                                assert(s[a].email@ != patch.email->0@) by {
                                    assert(spec_user_id(s[a]) != id@);
                                }
                            }
                        }
                    }
                    assert(repo_wf(t));
                }
                return Ok(());
            }
            i += 1;
        }
        proof {
            assert(!has_id(s, id@));
            assert forall|j: int| 0 <= j < s.len() implies apply_patch(s, id@, *patch)[j] == s[j] by {
                assert(spec_user_id(s[j]) != id@);
            }
            assert(apply_patch(s, id@, *patch) =~= s);
        }
        Ok(())
    }

    fn find_all(&self, skip: u64, limit: i64) -> (r: Result<Vec<User>, RepoError>) {
        let n = self.accounts.len();
        let start: usize = if skip < n as u64 {
            skip as usize
        } else {
            n
        };
        let remaining = n - start;
        let take: usize = if (limit as u64) < remaining as u64 {
            limit as usize
        } else {
            remaining
        };
        let mut out: Vec<User> = Vec::new();
        let mut i: usize = 0;
        while i < take
            invariant
                0 <= i <= take,
                start + take <= n,
                n == self.accounts@.len(),
                out@ == self.accounts@.subrange(start as int, start as int + i as int),
            decreases take - i,
        {
            out.push(self.accounts[start + i].clone());
            proof {
                assert(out@ =~= self.accounts@.subrange(start as int, start as int + i as int + 1));
            }
            i += 1;
        }
        proof {
            assert(out@ =~= spec_window(self.accounts@, skip as int, limit as int));
        }
        Ok(out)
    }

    fn count(&self) -> (r: Result<u64, RepoError>) {
        Ok(self.accounts.len() as u64)
    }
}

impl InMemoryUserRepository {
    /// Returns the id to assign when no stored account shares the new
    /// account's id or email, and the duplicate rejection otherwise.
    fn duplicate_guard<'a>(&self, user: &'a User) -> (r: Result<&'a String, RepoError>)
        requires
            repo_wf(self.accounts@),
            user.id is Some,
        ensures
            match r {
                Ok(uid) => {
                    &&& uid@ == spec_user_id(*user)
                    &&& !has_id(self.accounts@, spec_user_id(*user))
                    &&& !has_email(self.accounts@, user.email@)
                },
                Err(RepoError::Duplicate) => has_id(self.accounts@, spec_user_id(*user))
                    || has_email(self.accounts@, user.email@),
                Err(RepoError::Backend(_)) => false,
            },
    {
        let uid = user.id.as_ref().unwrap();
        let n = self.accounts.len();
        let mut i: usize = 0;
        while i < n
            invariant
                0 <= i <= n,
                n == self.accounts@.len(),
                repo_wf(self.accounts@),
                uid@ == spec_user_id(*user),
                forall|j: int|
                    0 <= j < i ==> spec_user_id(#[trigger] self.accounts@[j]) != spec_user_id(*user)
                        && self.accounts@[j].email@ != user.email@,
            decreases n - i,
        {
            let u = &self.accounts[i];
            if u.id.as_ref().unwrap().eq(uid) || u.email.eq(&user.email) {
                return Err(RepoError::Duplicate);
            }
            i += 1;
        }
        Ok(uid)
    }
}

} // verus!
