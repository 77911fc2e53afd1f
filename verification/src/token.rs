//! Stateless signed-token encode/decode for access tokens.
//!
//! An access token is a compact JWT signed with HMAC-SHA256 under a
//! server-held secret; its claims are the owning user id and an absolute
//! expiry in UTC seconds. Tokens are never persisted: validity is decided
//! purely by signature correctness and the expiry comparison made here, so
//! signature failure and expiry are distinguishable failure kinds.

use vstd::prelude::*;

use crate::errors::AuthError;

verus! {

/// What `jsonwebtoken::encode` returns for the claim object
/// `{user_id, exp}` signed with HMAC-SHA256 under `secret`: a pure function
/// of the three arguments (the claim serialization and the MAC are
/// deterministic).
pub uninterp spec fn jwt_of(user_id: int, exp: int, secret: Seq<char>) -> Seq<char>;

/// What `jsonwebtoken::decode` (signature check only, no time-based
/// validation) returns for a token and a secret: the `(user_id, exp)` claims
/// when the token is well-formed and its signature verifies under `secret`
/// and both claims are 64-bit integers, and nothing otherwise. A pure
/// function of its two arguments.
pub uninterp spec fn jwt_claims_of(token: Seq<char>, secret: Seq<char>) -> Option<(int, int)>;

/// The claims embedded in an access token: owning user id and absolute
/// expiry (UTC seconds).
#[derive(Clone, Copy, Debug, PartialEq, Eq, Structural)]
pub struct AccessTokenClaims {
    pub user_id: i64,
    pub exp: i64,
}

/// Sign the claim object `{user_id, exp}` into a compact JWT.
///
/// Relies on `jsonwebtoken::encode` with `Header::default()` (HS256) and
/// `EncodingKey::from_secret`: the result is the HMAC-SHA256-signed compact
/// serialization of those claims, it is non-empty (three dot-separated
/// base64 parts), and `jsonwebtoken::decode` under the same secret gives the
/// claims back. Encoding cannot fail here: the HMAC key family matches the
/// default header's algorithm, signing an HMAC is infallible, and so is the
/// JSON serialization of this header and claim object — hence the result is
/// always `Some`.
#[verifier::external_body]
fn encode_token_raw(user_id: i64, exp: i64, secret: &String) -> (r: Option<String>)
    ensures
        r is Some,
        r matches Some(t) ==> t@ == jwt_of(user_id as int, exp as int, secret@),
        r is Some ==> jwt_claims_of(jwt_of(user_id as int, exp as int, secret@), secret@)
            == Some((user_id as int, exp as int)),
        r matches Some(t) ==> t@.len() > 0,
{
    let mut claims = serde_json::Map::new();
    claims.insert("user_id".to_string(), serde_json::Value::from(user_id));
    claims.insert("exp".to_string(), serde_json::Value::from(exp));
    let key = jsonwebtoken::EncodingKey::from_secret(secret.as_bytes());
    jsonwebtoken::encode(&jsonwebtoken::Header::default(), &serde_json::Value::Object(claims), &key).ok()
}

/// Check a token's structure and signature and extract its claims.
///
/// Relies on `jsonwebtoken::decode` with `DecodingKey::from_secret` and a
/// `Validation` restricted to the signature (`validate_exp` off, no required
/// claims), so the result depends only on the token and the secret: the
/// claims come back exactly when the token is well-formed, its HS256
/// signature verifies under `secret`, and `user_id` and `exp` are 64-bit
/// integers.
#[verifier::external_body]
fn decode_token_raw(token: &String, secret: &String) -> (r: Option<(i64, i64)>)
    ensures
        r matches Some(c) ==> jwt_claims_of(token@, secret@) == Some((c.0 as int, c.1 as int)),
        r is None ==> jwt_claims_of(token@, secret@) is None,
{
    let key = jsonwebtoken::DecodingKey::from_secret(secret.as_bytes());
    let mut validation = jsonwebtoken::Validation::new(jsonwebtoken::Algorithm::HS256);
    validation.validate_exp = false;
    validation.required_spec_claims = std::collections::HashSet::new();
    let data = jsonwebtoken::decode::<serde_json::Value>(token.as_str(), &key, &validation).ok()?;
    let user_id = data.claims.get("user_id")?.as_i64()?;
    let exp = data.claims.get("exp")?.as_i64()?;
    Some((user_id, exp))
}

/// Mint an access token for `user_id` that expires at `exp` (UTC seconds).
/// Always succeeds: HMAC signing cannot fail. The `Result` is the codec's
/// port shape.
pub fn generate_access_token(user_id: i64, exp: i64, secret: &String) -> (r: Result<
    String,
    AuthError,
>)
    ensures
        r is Ok,
        r matches Ok(t) ==> {
            &&& t@ == jwt_of(user_id as int, exp as int, secret@)
            &&& jwt_claims_of(t@, secret@) == Some((user_id as int, exp as int))
            &&& t@.len() > 0
        },
{
    match encode_token_raw(user_id, exp, secret) {
        Some(token) => Ok(token),
        None => Err(AuthError::InternalError),
    }
}

/// Decode and validate an access token at time `now` (UTC seconds).
///
/// A token whose structure or signature is invalid fails
/// `InvalidCredentials`; a structurally valid, correctly signed token whose
/// expiry has passed fails `TokenExpired`; otherwise the embedded claims are
/// returned.
pub fn validate_access_token(token: &String, secret: &String, now: i64) -> (r: Result<
    AccessTokenClaims,
    AuthError,
>)
    ensures
        jwt_claims_of(token@, secret@) is None <==> r matches Err(AuthError::InvalidCredentials),
        jwt_claims_of(token@, secret@) matches Some(c) ==> {
            &&& (r matches Err(AuthError::TokenExpired) <==> now >= c.1)
            &&& (now < c.1 ==> (r matches Ok(cl) && cl.user_id as int == c.0 && cl.exp as int
                == c.1))
            &&& (r is Ok ==> now < c.1)
        },
{
    match decode_token_raw(token, secret) {
        None => Err(AuthError::InvalidCredentials),
        Some((user_id, exp)) => {
            if now >= exp {
                Err(AuthError::TokenExpired)
            } else {
                Ok(AccessTokenClaims { user_id, exp })
            }
        }
    }
}

} // verus!
