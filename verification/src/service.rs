//! The authentication orchestrator: register, login, refresh, authorize,
//! logout.
//!
//! The service composes the password hasher, the credential store, the
//! session store and the token codec. It caches no user or token state of
//! its own between calls; its abstract state is the pair of store states
//! plus the token secret, and every operation's effect is pinned by a
//! postcondition predicate over that state.

use vstd::prelude::*;

use crate::credential::contains_email;
use crate::credential::emails_unique;
use crate::credential::find_user_by_email;
use crate::credential::find_user_by_id;
use crate::credential::ids_dense;
use crate::credential::CredentialStore;
use crate::email::EmailService;
use crate::errors::AuthError;
use crate::errors::UserError;
use crate::hashing::hash_password_raw;
use crate::hashing::password_verifies;
use crate::hashing::verify_password_raw;
use crate::session::session_valid;
use crate::session::SessionStore;
use crate::token::generate_access_token;
use crate::token::jwt_claims_of;
use crate::token::jwt_of;
use crate::token::validate_access_token;
use crate::user::User;
use crate::user::UserRole;

verus! {

/// Number of random bytes in a refresh token; its hex form is twice as long.
pub const REFRESH_TOKEN_LENGTH: usize = 30;

/// Lifetime of a refresh token: 30 days, in seconds.
pub const REFRESH_TOKEN_TTL_SECONDS: i64 = 30 * 24 * 60 * 60;

/// Lifetime of an access token: 10 minutes, in seconds.
pub const ACCESS_TOKEN_TTL_SECONDS: i64 = 10 * 60;

/// Whether `c` is one of the sixteen lowercase hex digits.
pub open spec fn is_lower_hex_digit(c: char) -> bool {
    c == '0' || c == '1' || c == '2' || c == '3' || c == '4' || c == '5' || c == '6' || c == '7'
        || c == '8' || c == '9' || c == 'a' || c == 'b' || c == 'c' || c == 'd' || c == 'e' || c
        == 'f'
}

/// The absolute expiry for a record created at `now` with lifetime `ttl`,
/// clamped to the largest representable timestamp.
pub open spec fn expiry_at(now: i64, ttl: i64) -> i64 {
    if now + ttl > i64::MAX {
        i64::MAX
    } else {
        (now + ttl) as i64
    }
}

fn add_ttl(now: i64, ttl: i64) -> (r: i64)
    requires
        0 <= ttl,
    ensures
        r == expiry_at(now, ttl),
{
    if now > i64::MAX - ttl {
        i64::MAX
    } else {
        now + ttl
    }
}

/// The lowercase hex digit of a nibble.
fn hex_digit(nibble: u8) -> (c: char)
    requires
        nibble < 16,
    ensures
        is_lower_hex_digit(c),
{
    match nibble {
        0 => '0',
        1 => '1',
        2 => '2',
        3 => '3',
        4 => '4',
        5 => '5',
        6 => '6',
        7 => '7',
        8 => '8',
        9 => '9',
        10 => 'a',
        11 => 'b',
        12 => 'c',
        13 => 'd',
        14 => 'e',
        _ => 'f',
    }
}

/// Relies on `rand::Rng::gen` on `rand::thread_rng` for one random byte;
/// nothing is claimed of the value.
#[verifier::external_body]
fn random_byte() -> u8 {
    rand::Rng::gen::<u8>(&mut rand::thread_rng())
}

/// Relies on `String::push`: appends exactly the one character.
#[verifier::external_body]
fn string_push(s: &mut String, c: char)
    ensures
        final(s)@ == old(s)@.push(c),
{
    s.push(c);
}

/// A fresh opaque refresh token: the hex form of `REFRESH_TOKEN_LENGTH`
/// random bytes, so always 60 lowercase hex digits.
fn generate_refresh_token() -> (r: String)
    ensures
        r@.len() == 2 * REFRESH_TOKEN_LENGTH,
        forall|k: int| 0 <= k < r@.len() ==> is_lower_hex_digit(#[trigger] r@[k]),
{
    let mut token = String::new();
    for i in 0..REFRESH_TOKEN_LENGTH
        invariant
            token@.len() == 2 * i,
            forall|k: int| 0 <= k < token@.len() ==> is_lower_hex_digit(#[trigger] token@[k]),
    {
        let byte = random_byte();
        proof {
            assert(byte >> 4 < 16 && byte & 0x0f < 16) by (bit_vector);
        }
        string_push(&mut token, hex_digit(byte >> 4));
        string_push(&mut token, hex_digit(byte & 0x0f));
    }
    token
}

/// The abstract state of the service: user records in creation order, live
/// sessions as a token-keyed map, and the token secret.
pub ghost struct ServiceView {
    pub users: Seq<User>,
    pub sessions: Map<Seq<char>, (i64, i64)>,
    pub secret: Seq<char>,
}

/// Validity of the abstract user state: dense ids and globally unique
/// emails. Every operation preserves it.
pub open spec fn view_wf(v: ServiceView) -> bool {
    ids_dense(v.users) && emails_unique(v.users)
}

/// The fields a freshly registered user record carries: the given names and
/// email, a fresh id, no picture, the plain role, an unverified email, and
/// all timestamps set to the registration time.
pub open spec fn registered_user_record(
    u: User,
    id: int,
    first_name: Seq<char>,
    last_name: Seq<char>,
    email: Seq<char>,
    now: i64,
) -> bool {
    &&& u.id == id
    &&& u.first_name@ == first_name
    &&& u.last_name@ == last_name
    &&& u.email@ == email
    &&& u.profile_picture is None
    &&& !u.email_verified
    &&& u.user_role == UserRole::User
    &&& u.last_login == now
    &&& u.created_at == now
    &&& u.updated_at == now
}

/// What `register` did: sessions and secret untouched; `EmailAlreadyExists`
/// exactly when the email was taken; on success the new record is appended
/// and its password hash verifies against the given password; an internal
/// error (hashing, id exhaustion, or notification failure) leaves the user
/// either uncreated or created-but-unnotified.
pub open spec fn register_post(
    pre: ServiceView,
    post: ServiceView,
    first_name: Seq<char>,
    last_name: Seq<char>,
    email: Seq<char>,
    password: Seq<char>,
    now: i64,
    r: Result<User, AuthError>,
) -> bool {
    &&& post.secret == pre.secret
    &&& post.sessions == pre.sessions
    &&& (r matches Err(AuthError::EmailAlreadyExists) <==> contains_email(pre.users, email))
    &&& (r matches Err(e) ==> (e == AuthError::EmailAlreadyExists || e
        == AuthError::InternalError))
    &&& (r matches Err(AuthError::EmailAlreadyExists) ==> post.users == pre.users)
    &&& (r matches Ok(u) ==> {
        &&& post.users == pre.users.push(u)
        &&& registered_user_record(u, pre.users.len() as int + 1, first_name, last_name, email, now)
        &&& password_verifies(password, u.password_hash@)
    })
    &&& (r matches Err(AuthError::InternalError) ==> (post.users == pre.users || exists|u: User|
        {
            &&& post.users == #[trigger] pre.users.push(u)
            &&& registered_user_record(u, pre.users.len() as int + 1, first_name, last_name, email, now)
            &&& password_verifies(password, u.password_hash@)
        }))
}

/// What `login` did: users and secret untouched. An unknown email or a
/// wrong password is `InvalidCredentials` and an unverified email is
/// `EmailNotVerified`, all without touching the sessions. Otherwise the
/// call succeeds: a fresh 60-hex-digit refresh token is stored with the
/// 30-day TTL (the write completes before the access token is minted), and
/// the access token is the signed claim for the user and the 10-minute
/// expiry.
pub open spec fn login_post(
    pre: ServiceView,
    post: ServiceView,
    email: Seq<char>,
    password: Seq<char>,
    now: i64,
    r: Result<(User, String, String), AuthError>,
) -> bool {
    &&& post.secret == pre.secret
    &&& post.users == pre.users
    &&& match find_user_by_email(pre.users, email) {
        None => r matches Err(AuthError::InvalidCredentials) && post.sessions == pre.sessions,
        Some(u) => {
            if !password_verifies(password, u.password_hash@) {
                r matches Err(AuthError::InvalidCredentials) && post.sessions == pre.sessions
            } else if !u.email_verified {
                r matches Err(AuthError::EmailNotVerified) && post.sessions == pre.sessions
            } else {
                r matches Ok(t) && {
                    &&& t.0 == u
                    &&& t.1@.len() == 2 * REFRESH_TOKEN_LENGTH
                    &&& (forall|k: int|
                        0 <= k < t.1@.len() ==> is_lower_hex_digit(#[trigger] t.1@[k]))
                    &&& post.sessions == pre.sessions.insert(
                        t.1@,
                        (u.id, expiry_at(now, REFRESH_TOKEN_TTL_SECONDS)),
                    )
                    &&& t.2@ == jwt_of(
                        u.id as int,
                        expiry_at(now, ACCESS_TOKEN_TTL_SECONDS) as int,
                        pre.secret,
                    )
                    &&& jwt_claims_of(t.2@, pre.secret) == Some(
                        (u.id as int, expiry_at(now, ACCESS_TOKEN_TTL_SECONDS) as int),
                    )
                    &&& t.2@.len() > 0
                }
            }
        },
    }
}

/// What `refresh_token` did: nothing changed; a live session's owner gets a
/// fresh signed access token with the 10-minute expiry, and anything else
/// is `InvalidCredentials`.
pub open spec fn refresh_post(
    pre: ServiceView,
    post: ServiceView,
    token: Seq<char>,
    now: i64,
    r: Result<String, AuthError>,
) -> bool {
    &&& post == pre
    &&& if session_valid(pre.sessions, token, now) {
        let user_id = pre.sessions[token].0;
        r matches Ok(at) && {
            &&& at@ == jwt_of(
                user_id as int,
                expiry_at(now, ACCESS_TOKEN_TTL_SECONDS) as int,
                pre.secret,
            )
            &&& jwt_claims_of(at@, pre.secret) == Some(
                (user_id as int, expiry_at(now, ACCESS_TOKEN_TTL_SECONDS) as int),
            )
            &&& at@.len() > 0
        }
    } else {
        r matches Err(AuthError::InvalidCredentials)
    }
}

/// What `authorization` did: nothing changed; a token that fails the
/// signature check is `InvalidCredentials`, a correctly signed token past
/// its expiry is `TokenExpired`, and otherwise the embedded user is
/// returned, or `InvalidCredentials` if that user no longer exists.
pub open spec fn authorize_post(
    pre: ServiceView,
    post: ServiceView,
    token: Seq<char>,
    now: i64,
    r: Result<User, AuthError>,
) -> bool {
    &&& post == pre
    &&& match jwt_claims_of(token, pre.secret) {
        None => r matches Err(AuthError::InvalidCredentials),
        Some(c) => {
            if now >= c.1 {
                r matches Err(AuthError::TokenExpired)
            } else {
                match find_user_by_id(pre.users, c.0) {
                    Some(u) => r matches Ok(ru) && ru == u,
                    None => r matches Err(AuthError::InvalidCredentials),
                }
            }
        },
    }
}

/// What `logout` did: exactly the one session gone, and success either way
/// (idempotent).
pub open spec fn logout_post(
    pre: ServiceView,
    post: ServiceView,
    token: Seq<char>,
    r: Result<(), AuthError>,
) -> bool {
    &&& post.users == pre.users
    &&& post.secret == pre.secret
    &&& post.sessions == pre.sessions.remove(token)
    &&& r is Ok
}

/// What `mark_email_verified` did: sessions and secret untouched; success
/// exactly when the user exists, in which case only that record's
/// email-verified flag is raised.
pub open spec fn mark_verified_post(
    pre: ServiceView,
    post: ServiceView,
    user_id: i64,
    r: Result<(), AuthError>,
) -> bool {
    &&& post.sessions == pre.sessions
    &&& post.secret == pre.secret
    &&& (r is Ok <==> find_user_by_id(pre.users, user_id as int) is Some)
    &&& (r matches Err(e) ==> e == AuthError::InvalidCredentials && post.users == pre.users)
    &&& (find_user_by_id(pre.users, user_id as int) matches Some(u) ==> post.users
        == pre.users.update(user_id - 1, User { email_verified: true, ..u }))
}

/// The authentication orchestrator. Stateless between calls: it owns the
/// token secret and its two stores, and every mutation is one of the
/// operations below.
pub struct UserService<M: EmailService> {
    jwt_secret: String,
    users: CredentialStore,
    sessions: SessionStore,
    email_service: M,
}

impl<M: EmailService> View for UserService<M> {
    type V = ServiceView;

    closed spec fn view(&self) -> ServiceView {
        ServiceView { users: self.users@, sessions: self.sessions@, secret: self.jwt_secret@ }
    }
}

/// Assemble a service from its dependencies.
pub fn new_user_service<M: EmailService>(
    jwt_secret: String,
    users: CredentialStore,
    sessions: SessionStore,
    email_service: M,
) -> (r: UserService<M>)
    ensures
        r@.users == users@,
        r@.sessions == sessions@,
        r@.secret == jwt_secret@,
        users.wf() && sessions.wf() ==> r.wf(),
        users.wf() ==> view_wf(r@),
{
    UserService { jwt_secret, users, sessions, email_service }
}

impl<M: EmailService> UserService<M> {
    /// Internal invariant: both stores are well-formed.
    pub closed spec fn wf(&self) -> bool {
        self.users.wf() && self.sessions.wf()
    }

    /// Register a new account: hash the password, create the record, then
    /// trigger the verification notification. The conflict kind passes
    /// through unchanged; every other failure is `InternalError`.
    pub fn register(
        &mut self,
        first_name: String,
        last_name: String,
        email: String,
        password: String,
        now: i64,
    ) -> (r: Result<User, AuthError>)
        requires
            old(self).wf(),
        ensures
            final(self).wf(),
            view_wf(final(self)@),
            register_post(
                old(self)@,
                final(self)@,
                first_name@,
                last_name@,
                email@,
                password@,
                now,
                r,
            ),
    {
        match self.users.find_by_email(&email) {
            Ok(_) => {
                return Err(AuthError::EmailAlreadyExists);
            }
            Err(_) => {}
        }
        let password_hash = match hash_password_raw(&password) {
            Ok(h) => h,
            Err(_) => {
                return Err(AuthError::InternalError);
            }
        };
        let user = match self.users.create(first_name, last_name, email, password_hash, now) {
            Ok(u) => u,
            Err(UserError::EmailAlreadyExists) => {
                return Err(AuthError::EmailAlreadyExists);
            }
            Err(_) => {
                return Err(AuthError::InternalError);
            }
        };
        let context: Vec<(String, String)> = Vec::new();
        match self.email_service.send_email(
            user.email.as_str(),
            "Verify Your Email",
            "verify_email",
            context,
        ) {
            Ok(_) => Ok(user),
            Err(_) => Err(AuthError::InternalError),
        }
    }

    /// Log in with email and password. An unknown email is deliberately
    /// `InvalidCredentials`, not a not-found kind, to avoid leaking account
    /// existence. On success the refresh-token write completes before the
    /// access token is minted and returned.
    pub fn login(&mut self, email: String, password: String, now: i64) -> (r: Result<
        (User, String, String),
        AuthError,
    >)
        requires
            old(self).wf(),
        ensures
            final(self).wf(),
            view_wf(final(self)@),
            login_post(old(self)@, final(self)@, email@, password@, now, r),
    {
        let user = match self.users.find_by_email(&email) {
            Ok(u) => u,
            Err(_) => {
                return Err(AuthError::InvalidCredentials);
            }
        };
        if !verify_password_raw(&password, &user.password_hash) {
            return Err(AuthError::InvalidCredentials);
        }
        if !user.email_verified {
            return Err(AuthError::EmailNotVerified);
        }
        let refresh_token = generate_refresh_token();
        let expires_at = add_ttl(now, REFRESH_TOKEN_TTL_SECONDS);
        let _ = self.sessions.save_refresh_token(user.id, refresh_token.clone(), expires_at);
        let access_token = match generate_access_token(
            user.id,
            add_ttl(now, ACCESS_TOKEN_TTL_SECONDS),
            &self.jwt_secret,
        ) {
            Ok(t) => t,
            Err(_) => {
                return Err(AuthError::InternalError);
            }
        };
        Ok((user, refresh_token, access_token))
    }

    /// Exchange a live refresh token for a fresh access token. The refresh
    /// token itself is not rotated.
    pub fn refresh_token(&mut self, refresh_token: String, now: i64) -> (r: Result<
        String,
        AuthError,
    >)
        requires
            old(self).wf(),
        ensures
            final(self).wf(),
            view_wf(final(self)@),
            refresh_post(old(self)@, final(self)@, refresh_token@, now, r),
    {
        let payload = match self.sessions.validate_refresh_token(&refresh_token, now) {
            Ok(p) => p,
            Err(_) => {
                return Err(AuthError::InvalidCredentials);
            }
        };
        match generate_access_token(
            payload.user_id,
            add_ttl(now, ACCESS_TOKEN_TTL_SECONDS),
            &self.jwt_secret,
        ) {
            Ok(t) => Ok(t),
            Err(_) => Err(AuthError::InternalError),
        }
    }

    /// Authorize a bearer access token (the caller strips any `Bearer `
    /// prefix first) and return the account it names.
    pub fn authorization(&mut self, access_token: String, now: i64) -> (r: Result<
        User,
        AuthError,
    >)
        requires
            old(self).wf(),
        ensures
            final(self).wf(),
            view_wf(final(self)@),
            authorize_post(old(self)@, final(self)@, access_token@, now, r),
    {
        let claims = match validate_access_token(&access_token, &self.jwt_secret, now) {
            Ok(c) => c,
            Err(e) => {
                return Err(e);
            }
        };
        match self.users.find_by_id(claims.user_id) {
            Ok(u) => Ok(u),
            Err(_) => Err(AuthError::InvalidCredentials),
        }
    }

    /// Remove the refresh-token session. Treats absence as success, so
    /// logging out twice is not an error.
    pub fn logout(&mut self, refresh_token: String) -> (r: Result<(), AuthError>)
        requires
            old(self).wf(),
        ensures
            final(self).wf(),
            view_wf(final(self)@),
            logout_post(old(self)@, final(self)@, refresh_token@, r),
    {
        let _ = self.sessions.remove_refresh_token(&refresh_token);
        Ok(())
    }

    /// Record that the account's email has been verified (the delivery and
    /// confirmation of the notification happen outside the core).
    pub fn mark_email_verified(&mut self, user_id: i64) -> (r: Result<(), AuthError>)
        requires
            old(self).wf(),
        ensures
            final(self).wf(),
            view_wf(final(self)@),
            mark_verified_post(old(self)@, final(self)@, user_id, r),
    {
        match self.users.mark_email_verified(user_id) {
            Ok(_) => Ok(()),
            Err(_) => Err(AuthError::InvalidCredentials),
        }
    }

    /// Best-effort role membership check for the HTTP layer.
    pub fn has_role(&self, user_id: i64, roles: &Vec<UserRole>) -> (r: bool)
        requires
            self.wf(),
        ensures
            r == match find_user_by_id(self@.users, user_id as int) {
                Some(u) => roles@.contains(u.user_role),
                None => false,
            },
    {
        self.users.has_role(user_id, roles)
    }
}

} // verus!
