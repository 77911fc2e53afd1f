//! One-way, salted, memory-hard password hashing and verification.
//!
//! Hashing produces a self-describing PHC string (algorithm parameters, salt
//! and digest); verification recomputes the digest from the password and the
//! hash string's own parameters and compares. Both lean on the `argon2`
//! crate; what verification returns is a pure function of the password and
//! the hash string, named below.

use vstd::prelude::*;

use argon2::password_hash::PasswordHasher;
use argon2::PasswordVerifier;

use crate::errors::AuthError;

verus! {

/// What `argon2` password verification returns for a password and a PHC hash
/// string: whether the digest recomputed from the password with the hash
/// string's own salt and parameters matches the digest stored in it. A pure
/// function of its two arguments; malformed hash strings yield `false`.
pub uninterp spec fn password_verifies(password: Seq<char>, phc_hash: Seq<char>) -> bool;

/// Hash a password with a fresh random salt.
///
/// Relies on argon2's `PasswordHasher::hash_password` (with
/// `SaltString::generate` for the salt): on success the returned PHC string
/// verifies against the hashed password, since `PasswordVerifier::
/// verify_password` recomputes the same digest from that string's salt and
/// parameters. The salt is random, so two calls on one password may return
/// different strings; nothing more is claimed of the result.
#[verifier::external_body]
pub(crate) fn hash_password_raw(password: &String) -> (r: Result<String, AuthError>)
    ensures
        r matches Ok(h) ==> password_verifies(password@, h@),
        r matches Err(e) ==> e == AuthError::InternalError,
{
    let salt = argon2::password_hash::SaltString::generate(&mut argon2::password_hash::rand_core::OsRng);
    match argon2::Argon2::default().hash_password(password.as_bytes(), &salt) {
        Ok(hash) => Ok(hash.to_string()),
        Err(_) => Err(AuthError::InternalError),
    }
}

/// Check a password against a PHC hash string.
///
/// Relies on argon2's `PasswordHash::new` and `PasswordVerifier::
/// verify_password`: the result depends only on the password and the hash
/// string. A malformed hash string or an internal failure yields `false`;
/// no error kind distinguishes "wrong password" from "corrupt hash".
#[verifier::external_body]
pub(crate) fn verify_password_raw(password: &String, phc_hash: &String) -> (r: bool)
    ensures
        r == password_verifies(password@, phc_hash@),
{
    match argon2::PasswordHash::new(phc_hash.as_str()) {
        Ok(parsed) => {
            argon2::Argon2::default().verify_password(password.as_bytes(), &parsed).is_ok()
        }
        Err(_) => false,
    }
}

} // verus!
