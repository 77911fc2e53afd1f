//! Laws of the authentication lifecycle, proved from the operation
//! postconditions alone.
//!
//! Each law quantifies over abstract service states and the postcondition
//! predicates that the service operations establish, so it covers every
//! execution of those operations, in any interleaving that produces the
//! hypothesised states.

use vstd::prelude::*;

use crate::credential::find_user_by_email;
use crate::credential::find_user_by_id;
use crate::credential::lemma_contains_email_covers;
use crate::credential::lemma_find_email_at;
use crate::credential::lemma_find_email_push;
use crate::credential::lemma_find_id_at;
use crate::errors::AuthError;
use crate::service::authorize_post;
use crate::service::login_post;
use crate::service::logout_post;
use crate::service::mark_verified_post;
use crate::service::refresh_post;
use crate::service::register_post;
use crate::service::expiry_at;
use crate::service::view_wf;
use crate::service::ServiceView;
use crate::service::ACCESS_TOKEN_TTL_SECONDS;
use crate::service::REFRESH_TOKEN_LENGTH;
use crate::service::REFRESH_TOKEN_TTL_SECONDS;
use crate::session::session_valid;
use crate::token::jwt_claims_of;
use crate::user::User;

verus! {

/// Registering the same email twice yields a user on the first call and
/// `EmailAlreadyExists` on the second, whatever else the two requests
/// carry.
pub proof fn lemma_duplicate_registration_rejected(
    s0: ServiceView,
    s1: ServiceView,
    s2: ServiceView,
    first_name1: Seq<char>,
    last_name1: Seq<char>,
    first_name2: Seq<char>,
    last_name2: Seq<char>,
    email: Seq<char>,
    password1: Seq<char>,
    password2: Seq<char>,
    now1: i64,
    now2: i64,
    r1: Result<User, AuthError>,
    r2: Result<User, AuthError>,
)
    requires
        register_post(s0, s1, first_name1, last_name1, email, password1, now1, r1),
        r1 is Ok,
        register_post(s1, s2, first_name2, last_name2, email, password2, now2, r2),
    ensures
        r2 matches Err(AuthError::EmailAlreadyExists),
{
    let u = r1->Ok_0;
    assert(s1.users[s0.users.len() as int] == u);
    lemma_contains_email_covers(s1.users, email);
}

/// Logging in right after registration, with the correct password, fails
/// `EmailNotVerified`: the fresh account's email is not yet verified.
pub proof fn lemma_login_blocked_until_verified(
    s0: ServiceView,
    s1: ServiceView,
    s2: ServiceView,
    first_name: Seq<char>,
    last_name: Seq<char>,
    email: Seq<char>,
    password: Seq<char>,
    now1: i64,
    now2: i64,
    r1: Result<User, AuthError>,
    r2: Result<(User, String, String), AuthError>,
)
    requires
        register_post(s0, s1, first_name, last_name, email, password, now1, r1),
        r1 is Ok,
        login_post(s1, s2, email, password, now2, r2),
    ensures
        r2 matches Err(AuthError::EmailNotVerified),
{
    let u = r1->Ok_0;
    lemma_find_email_push(s0.users, u, email);
    assert(find_user_by_email(s1.users, email) == Some(u));
}

/// Once the registered account's email is verified, logging in with the
/// correct password succeeds and returns the full triple with non-empty
/// tokens.
pub proof fn lemma_login_after_verification(
    s0: ServiceView,
    s1: ServiceView,
    s2: ServiceView,
    s3: ServiceView,
    first_name: Seq<char>,
    last_name: Seq<char>,
    email: Seq<char>,
    password: Seq<char>,
    now1: i64,
    now3: i64,
    r1: Result<User, AuthError>,
    r2: Result<(), AuthError>,
    r3: Result<(User, String, String), AuthError>,
)
    requires
        view_wf(s1),
        view_wf(s2),
        register_post(s0, s1, first_name, last_name, email, password, now1, r1),
        r1 is Ok,
        mark_verified_post(s1, s2, r1->Ok_0.id, r2),
        login_post(s2, s3, email, password, now3, r3),
    ensures
        r3 matches Ok(t) && {
            &&& t.0.id == r1->Ok_0.id
            &&& t.1@.len() == 2 * REFRESH_TOKEN_LENGTH
            &&& t.2@.len() > 0
        },
{
    let u = r1->Ok_0;
    let idx = s0.users.len() as int;
    assert(s1.users[idx] == u);
    assert(u.id == idx + 1);
    assert(forall|a: int, b: int| 0 <= a < b < s1.users.len() ==> s1.users[a].id != s1.users[b].id);
    lemma_find_id_at(s1.users, idx);
    assert(find_user_by_id(s1.users, u.id as int) == Some(u));
    assert(r2 is Ok);
    let u2 = User { email_verified: true, ..u };
    assert(s2.users == s1.users.update(idx, u2));
    assert(s2.users[idx] == u2);
    lemma_find_email_at(s2.users, idx);
    assert(find_user_by_email(s2.users, email) == Some(u2));
}

/// A refresh token returned by a successful login, redeemed before its
/// 30-day expiry, yields an access token whose decoded user id is the
/// logged-in user's id.
pub proof fn lemma_refresh_keeps_user(
    s0: ServiceView,
    s1: ServiceView,
    s2: ServiceView,
    email: Seq<char>,
    password: Seq<char>,
    now1: i64,
    now2: i64,
    r1: Result<(User, String, String), AuthError>,
    r2: Result<String, AuthError>,
)
    requires
        login_post(s0, s1, email, password, now1, r1),
        r1 is Ok,
        now2 < expiry_at(now1, REFRESH_TOKEN_TTL_SECONDS),
        refresh_post(s1, s2, r1->Ok_0.1@, now2, r2),
    ensures
        r2 matches Ok(at) && jwt_claims_of(at@, s1.secret) == Some(
            (r1->Ok_0.0.id as int, expiry_at(now2, ACCESS_TOKEN_TTL_SECONDS) as int),
        ),
{
    let t = r1->Ok_0;
    assert(session_valid(s1.sessions, t.1@, now2));
    assert(s1.sessions[t.1@].0 == t.0.id);
}

/// A token that no session names fails `InvalidCredentials` when redeemed.
pub proof fn lemma_refresh_unknown_token(
    s0: ServiceView,
    s1: ServiceView,
    token: Seq<char>,
    now: i64,
    r: Result<String, AuthError>,
)
    requires
        refresh_post(s0, s1, token, now, r),
        !s0.sessions.contains_key(token),
    ensures
        r matches Err(AuthError::InvalidCredentials),
{
}

/// Access-token lifecycle at authorization time: while `now < exp` a
/// correctly signed token names its user and authorization succeeds
/// whenever that user still exists; once `now >= exp` the same token fails
/// `TokenExpired`, and nothing else.
pub proof fn lemma_authorize_token_lifecycle(
    s0: ServiceView,
    s1: ServiceView,
    token: Seq<char>,
    now: i64,
    user_id: int,
    exp: int,
    r: Result<User, AuthError>,
)
    requires
        authorize_post(s0, s1, token, now, r),
        jwt_claims_of(token, s0.secret) == Some((user_id, exp)),
    ensures
        now >= exp ==> r matches Err(AuthError::TokenExpired),
        now < exp && find_user_by_id(s0.users, user_id) is Some ==> (r matches Ok(u) && Some(u)
            == find_user_by_id(s0.users, user_id)),
        now < exp && find_user_by_id(s0.users, user_id) is None ==> r matches Err(
            AuthError::InvalidCredentials,
        ),
{
}

/// A token that does not carry a valid signature under the service's
/// secret (it was tampered with, malformed, or signed with another secret)
/// is rejected as `InvalidCredentials`, never as expired.
pub proof fn lemma_authorize_rejects_unsigned(
    s0: ServiceView,
    s1: ServiceView,
    token: Seq<char>,
    now: i64,
    r: Result<User, AuthError>,
)
    requires
        authorize_post(s0, s1, token, now, r),
        jwt_claims_of(token, s0.secret) is None,
    ensures
        r matches Err(AuthError::InvalidCredentials),
{
}

/// Revocation is effective immediately: after logout of a token, redeeming
/// that same token fails `InvalidCredentials`.
pub proof fn lemma_logout_revokes(
    s0: ServiceView,
    s1: ServiceView,
    s2: ServiceView,
    token: Seq<char>,
    now: i64,
    r1: Result<(), AuthError>,
    r2: Result<String, AuthError>,
)
    requires
        logout_post(s0, s1, token, r1),
        refresh_post(s1, s2, token, now, r2),
    ensures
        r1 is Ok,
        r2 matches Err(AuthError::InvalidCredentials),
{
    assert(!s1.sessions.contains_key(token));
}

/// Logging out twice with the same token succeeds both times and the
/// second call changes nothing.
pub proof fn lemma_logout_idempotent(
    s0: ServiceView,
    s1: ServiceView,
    s2: ServiceView,
    token: Seq<char>,
    r1: Result<(), AuthError>,
    r2: Result<(), AuthError>,
)
    requires
        logout_post(s0, s1, token, r1),
        logout_post(s1, s2, token, r2),
    ensures
        r1 is Ok,
        r2 is Ok,
        s2.sessions == s1.sessions,
{
    assert(s0.sessions.remove(token).remove(token) =~= s0.sessions.remove(token));
}

/// Concurrent sessions are independent: revoking one token leaves every
/// other token's session untouched, with the same owner and expiry.
pub proof fn lemma_sessions_independent(
    s0: ServiceView,
    s1: ServiceView,
    revoked: Seq<char>,
    other: Seq<char>,
    now: i64,
    r1: Result<(), AuthError>,
)
    requires
        logout_post(s0, s1, revoked, r1),
        revoked != other,
        session_valid(s0.sessions, other, now),
    ensures
        session_valid(s1.sessions, other, now),
        s1.sessions[other] == s0.sessions[other],
{
}

/// Bulk revocation ends exactly the named user's sessions: afterwards no
/// token owned by that user is live, and every other user's session is
/// exactly as it was. The two hypotheses are what the session store's
/// bulk-revoke operation ensures.
pub proof fn lemma_revoke_all_sessions(
    m0: Map<Seq<char>, (i64, i64)>,
    m1: Map<Seq<char>, (i64, i64)>,
    user_id: i64,
    now: i64,
)
    requires
        forall|t: Seq<char>|
            m1.contains_key(t) <==> (m0.contains_key(t) && m0[t].0 != user_id),
        forall|t: Seq<char>| m1.contains_key(t) ==> m1[t] == m0[t],
    ensures
        forall|t: Seq<char>|
            m0.contains_key(t) && m0[t].0 == user_id ==> !session_valid(m1, t, now),
        forall|t: Seq<char>|
            m0.contains_key(t) && m0[t].0 != user_id ==> session_valid(m1, t, now)
                == session_valid(m0, t, now),
{
}

} // verus!
