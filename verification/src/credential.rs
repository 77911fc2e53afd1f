//! Durable user records, keyed by id and by unique email.
//!
//! The store's abstract state is the sequence of user records in creation
//! order. Ids are assigned densely (the n-th created user has id n), emails
//! are globally unique, and records are never removed, so both lookups are
//! determined by the sequence.

use vstd::prelude::*;

use crate::errors::UserError;
use crate::user::User;
use crate::user::UserRole;

verus! {

/// The record with the given email: the first match in creation order,
/// which under unique emails is the only one.
pub open spec fn find_user_by_email(s: Seq<User>, email: Seq<char>) -> Option<User>
    decreases s.len(),
{
    if s.len() == 0 {
        None
    } else if s[0].email@ == email {
        Some(s[0])
    } else {
        find_user_by_email(s.drop_first(), email)
    }
}

/// Whether some record carries the given email.
pub open spec fn contains_email(s: Seq<User>, email: Seq<char>) -> bool {
    find_user_by_email(s, email) is Some
}

/// The record with the given id: the first match in creation order, which
/// under unique ids is the only one.
pub open spec fn find_user_by_id(s: Seq<User>, id: int) -> Option<User>
    decreases s.len(),
{
    if s.len() == 0 {
        None
    } else if s[0].id == id {
        Some(s[0])
    } else {
        find_user_by_id(s.drop_first(), id)
    }
}

/// No two records carry the same email.
pub open spec fn emails_unique(s: Seq<User>) -> bool {
    forall|i: int, j: int| 0 <= i < j < s.len() ==> s[i].email@ != s[j].email@
}

/// Ids are dense: the record at position `i` has id `i + 1`.
pub open spec fn ids_dense(s: Seq<User>) -> bool {
    forall|i: int| 0 <= i < s.len() ==> #[trigger] s[i].id == i + 1
}

/// An email is found exactly when some record carries it.
pub proof fn lemma_contains_email_covers(s: Seq<User>, email: Seq<char>)
    ensures
        contains_email(s, email) <==> exists|i: int| 0 <= i < s.len() && s[i].email@ == email,
    decreases s.len(),
{
    if s.len() > 0 {
        lemma_contains_email_covers(s.drop_first(), email);
        if s[0].email@ == email {
        } else {
            if contains_email(s, email) {
                let i = choose|i: int|
                    0 <= i < s.drop_first().len() && s.drop_first()[i].email@ == email;
                assert(s[i + 1].email@ == email);
            }
            if exists|i: int| 0 <= i < s.len() && s[i].email@ == email {
                let i = choose|i: int| 0 <= i < s.len() && s[i].email@ == email;
                assert(s.drop_first()[i - 1].email@ == email);
            }
        }
    }
}

/// An id is found exactly when some record carries it.
pub proof fn lemma_find_id_covers(s: Seq<User>, id: int)
    ensures
        find_user_by_id(s, id) is Some <==> exists|i: int| 0 <= i < s.len() && s[i].id == id,
    decreases s.len(),
{
    if s.len() > 0 {
        lemma_find_id_covers(s.drop_first(), id);
        if s[0].id == id {
        } else {
            if find_user_by_id(s, id) is Some {
                let i = choose|i: int|
                    0 <= i < s.drop_first().len() && s.drop_first()[i].id == id;
                assert(s[i + 1].id == id);
            }
            if exists|i: int| 0 <= i < s.len() && s[i].id == id {
                let i = choose|i: int| 0 <= i < s.len() && s[i].id == id;
                assert(s.drop_first()[i - 1].id == id);
            }
        }
    }
}

/// Under unique emails, finding the email of the record at position `i`
/// yields that record.
pub proof fn lemma_find_email_at(s: Seq<User>, i: int)
    requires
        emails_unique(s),
        0 <= i < s.len(),
    ensures
        find_user_by_email(s, s[i].email@) == Some(s[i]),
    decreases s.len(),
{
    if i > 0 {
        assert(s[0].email@ != s[i].email@);
        assert(emails_unique(s.drop_first())) by {
            assert(forall|a: int, b: int|
                0 <= a < b < s.drop_first().len() ==> s.drop_first()[a] == s[a + 1]
                    && s.drop_first()[b] == s[b + 1]);
        }
        lemma_find_email_at(s.drop_first(), i - 1);
        assert(s.drop_first()[i - 1] == s[i]);
    }
}

/// Under dense ids, finding the id of the record at position `i` yields
/// that record.
pub proof fn lemma_find_id_at(s: Seq<User>, i: int)
    requires
        forall|a: int, b: int| 0 <= a < b < s.len() ==> s[a].id != s[b].id,
        0 <= i < s.len(),
    ensures
        find_user_by_id(s, s[i].id as int) == Some(s[i]),
    decreases s.len(),
{
    if i > 0 {
        assert(s[0].id != s[i].id);
        assert(forall|a: int, b: int|
            0 <= a < b < s.drop_first().len() ==> s.drop_first()[a] == s[a + 1]
                && s.drop_first()[b] == s[b + 1]);
        lemma_find_id_at(s.drop_first(), i - 1);
        assert(s.drop_first()[i - 1] == s[i]);
    }
}

/// Appending a record with a fresh email leaves every other email lookup
/// unchanged and sends the new email to the new record.
pub proof fn lemma_find_email_push(s: Seq<User>, u: User, email: Seq<char>)
    ensures
        contains_email(s, email) ==> find_user_by_email(s.push(u), email) == find_user_by_email(
            s,
            email,
        ),
        !contains_email(s, email) && u.email@ == email ==> find_user_by_email(s.push(u), email)
            == Some(u),
        !contains_email(s, email) && u.email@ != email ==> find_user_by_email(s.push(u), email)
            is None,
    decreases s.len(),
{
    if s.len() == 0 {
        assert(s.push(u).drop_first() =~= Seq::<User>::empty());
    } else {
        assert(s.push(u).drop_first() =~= s.drop_first().push(u));
        lemma_find_email_push(s.drop_first(), u, email);
    }
}

/// Durable credential store: user records in creation order, with dense ids
/// and globally unique emails.
pub struct CredentialStore {
    users: Vec<User>,
}

impl View for CredentialStore {
    type V = Seq<User>;

    closed spec fn view(&self) -> Seq<User> {
        self.users@
    }
}

impl CredentialStore {
    /// Invariant: dense ids and unique emails.
    pub open spec fn wf(&self) -> bool {
        ids_dense(self@) && emails_unique(self@)
    }

    /// An empty store.
    pub fn new() -> (r: CredentialStore)
        ensures
            r.wf(),
            r@ == Seq::<User>::empty(),
    {
        CredentialStore { users: Vec::new() }
    }

    /// Create a user record with a fresh id, the email unverified, the
    /// plain `User` role, and all timestamps set to `now` (UTC seconds).
    /// Fails `EmailAlreadyExists` exactly when the email is taken, and
    /// `InternalError` only when the id space is exhausted.
    pub fn create(
        &mut self,
        first_name: String,
        last_name: String,
        email: String,
        password_hash: String,
        now: i64,
    ) -> (r: Result<User, UserError>)
        requires
            old(self).wf(),
        ensures
            final(self).wf(),
            r matches Err(UserError::EmailAlreadyExists) <==> contains_email(old(self)@, email@),
            r is Err ==> final(self)@ == old(self)@,
            r matches Err(e) ==> e == UserError::EmailAlreadyExists || e == UserError::InternalError,
            !contains_email(old(self)@, email@) && old(self)@.len() + 1 <= i64::MAX ==> r is Ok,
            r matches Ok(u) ==> {
                &&& !contains_email(old(self)@, email@)
                &&& final(self)@ == old(self)@.push(u)
                &&& u.id == old(self)@.len() + 1
                &&& u.first_name@ == first_name@
                &&& u.last_name@ == last_name@
                &&& u.email@ == email@
                &&& u.password_hash@ == password_hash@
                &&& u.profile_picture is None
                &&& !u.email_verified
                &&& u.user_role == UserRole::User
                &&& u.last_login == now
                &&& u.created_at == now
                &&& u.updated_at == now
            },
    {
        match self.find_by_email(&email) {
            Ok(_) => Err(UserError::EmailAlreadyExists),
            Err(_) => {
                proof {
                    lemma_contains_email_covers(self.users@, email@);
                }
                let len64: u64 = self.users.len() as u64;
                if len64 >= 0x7fff_ffff_ffff_ffff {
                    return Err(UserError::InternalError);
                }
                let user = User {
                    id: (len64 + 1) as i64,
                    first_name,
                    last_name,
                    email,
                    profile_picture: None,
                    password_hash,
                    email_verified: false,
                    user_role: UserRole::User,
                    last_login: now,
                    created_at: now,
                    updated_at: now,
                };
                let result = user.clone();
                let ghost before = self.users@;
                self.users.push(user);
                proof {
                    assert(forall|k: int| 0 <= k < before.len() ==> before[k].email@ != email@);
                    assert(ids_dense(self.users@));
                    assert(emails_unique(self.users@));
                }
                Ok(result)
            }
        }
    }

    /// Look a user up by email; absence is `UserNotFound`.
    pub fn find_by_email(&self, email: &String) -> (r: Result<User, UserError>)
        requires
            self.wf(),
        ensures
            r matches Ok(u) ==> find_user_by_email(self@, email@) == Some(u),
            r matches Err(e) ==> e == UserError::UserNotFound && find_user_by_email(self@, email@)
                is None,
    {
        let n = self.users.len();
        assert(self.users@.skip(0) =~= self.users@);
        for i in 0..n
            invariant
                n == self.users@.len(),
                find_user_by_email(self.users@, email@) == find_user_by_email(
                    self.users@.skip(i as int),
                    email@,
                ),
        {
            proof {
                assert(self.users@.skip(i as int).drop_first() =~= self.users@.skip(i as int + 1));
            }
            if self.users[i].email == *email {
                assert(self.users@.skip(i as int)[0] == self.users@[i as int]);
                return Ok(self.users[i].clone());
            }
        }
        assert(self.users@.skip(n as int) =~= Seq::<User>::empty());
        Err(UserError::UserNotFound)
    }

    /// Look a user up by id; absence is `UserNotFound`.
    pub fn find_by_id(&self, id: i64) -> (r: Result<User, UserError>)
        requires
            self.wf(),
        ensures
            r matches Ok(u) ==> find_user_by_id(self@, id as int) == Some(u),
            r matches Err(e) ==> e == UserError::UserNotFound && find_user_by_id(self@, id as int)
                is None,
    {
        let n = self.users.len();
        assert(self.users@.skip(0) =~= self.users@);
        for i in 0..n
            invariant
                n == self.users@.len(),
                find_user_by_id(self.users@, id as int) == find_user_by_id(
                    self.users@.skip(i as int),
                    id as int,
                ),
        {
            proof {
                assert(self.users@.skip(i as int).drop_first() =~= self.users@.skip(i as int + 1));
            }
            if self.users[i].id == id {
                assert(self.users@.skip(i as int)[0] == self.users@[i as int]);
                return Ok(self.users[i].clone());
            }
        }
        assert(self.users@.skip(n as int) =~= Seq::<User>::empty());
        Err(UserError::UserNotFound)
    }

    /// Best-effort role membership check: whether the user exists and its
    /// role is one of `roles`. A failed lookup resolves to `false` rather
    /// than an error.
    pub fn has_role(&self, user_id: i64, roles: &Vec<UserRole>) -> (r: bool)
        requires
            self.wf(),
        ensures
            r == match find_user_by_id(self@, user_id as int) {
                Some(u) => roles@.contains(u.user_role),
                None => false,
            },
    {
        match self.find_by_id(user_id) {
            Err(_) => false,
            Ok(user) => {
                let n = roles.len();
                for j in 0..n
                    invariant
                        n == roles@.len(),
                        find_user_by_id(self@, user_id as int) == Some(user),
                        forall|k: int| 0 <= k < j ==> roles@[k] != user.user_role,
                {
                    if roles[j] == user.user_role {
                        return true;
                    }
                }
                false
            }
        }
    }

    /// Record that the user's email address has been verified. Absence is
    /// `UserNotFound`; the record is otherwise unchanged.
    pub fn mark_email_verified(&mut self, user_id: i64) -> (r: Result<(), UserError>)
        requires
            old(self).wf(),
        ensures
            final(self).wf(),
            r is Ok <==> find_user_by_id(old(self)@, user_id as int) is Some,
            r matches Err(e) ==> e == UserError::UserNotFound && final(self)@ == old(self)@,
            find_user_by_id(old(self)@, user_id as int) matches Some(u) ==> final(self)@ == old(
                self,
            )@.update(user_id - 1, User { email_verified: true, ..u }),
    {
        proof {
            lemma_find_id_covers(self.users@, user_id as int);
        }
        if user_id < 1 || user_id as u64 > self.users.len() as u64 {
            proof {
                if find_user_by_id(self.users@, user_id as int) is Some {
                    let i = choose|i: int| 0 <= i < self.users@.len() && self.users@[i].id
                        == user_id;
                    assert(false);
                }
            }
            return Err(UserError::UserNotFound);
        }
        let idx: usize = (user_id - 1) as usize;
        proof {
            assert(self.users@[idx as int].id == user_id);
            assert(forall|a: int, b: int|
                0 <= a < b < self.users@.len() ==> self.users@[a].id != self.users@[b].id);
            lemma_find_id_at(self.users@, idx as int);
        }
        let mut updated = self.users[idx].clone();
        updated.email_verified = true;
        let ghost before = self.users@;
        self.users.set(idx, updated);
        proof {
            assert(ids_dense(self.users@));
            assert(emails_unique(self.users@)) by {
                assert(forall|k: int|
                    0 <= k < self.users@.len() ==> self.users@[k].email@ == before[k].email@);
            }
        }
        Ok(())
    }
}

} // verus!
