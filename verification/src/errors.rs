//! Failure kinds of the authentication core and their HTTP-facing mapping.

use vstd::prelude::*;

verus! {

/// Flat failure taxonomy of the authentication core. Every public operation
/// returns a success value or exactly one of these kinds; raw infrastructure
/// errors never leave the core.
#[derive(Clone, Copy, Debug, PartialEq, Eq, Structural)]
pub enum AuthError {
    /// Infrastructure or unexpected failure: a store is down, hashing or
    /// token signing failed, internal state is malformed.
    InternalError,
    /// Caller-supplied data is structurally invalid (reserved for input
    /// validation upstream of this core).
    InvalidPayload,
    /// Bad password, unknown email, or an invalid, absent or tampered token.
    InvalidCredentials,
    /// A structurally valid access token whose expiry has passed; kept
    /// distinct from `InvalidCredentials` so callers can refresh instead of
    /// demanding a full re-login.
    TokenExpired,
    /// Registration conflict: the email is already taken.
    EmailAlreadyExists,
    /// Login blocked until the account's email is verified.
    EmailNotVerified,
}

/// Failure kinds of the credential store.
#[derive(Clone, Copy, Debug, PartialEq, Eq, Structural)]
pub enum UserError {
    InternalError,
    UserNotFound,
    EmailAlreadyExists,
}

impl AuthError {
    /// Short description of the failure kind (stands in for `Display`).
    pub fn message(&self) -> (r: &'static str)
        ensures
            r@ == self.message_spec(),
    {
        match self {
            AuthError::InternalError => "internal error",
            AuthError::InvalidPayload => "invalid payload",
            AuthError::InvalidCredentials => "invalid credentials",
            AuthError::TokenExpired => "token expired",
            AuthError::EmailAlreadyExists => "email already exists",
            AuthError::EmailNotVerified => "email not verified",
        }
    }

    pub open spec fn message_spec(&self) -> Seq<char> {
        match self {
            AuthError::InternalError => "internal error"@,
            AuthError::InvalidPayload => "invalid payload"@,
            AuthError::InvalidCredentials => "invalid credentials"@,
            AuthError::TokenExpired => "token expired"@,
            AuthError::EmailAlreadyExists => "email already exists"@,
            AuthError::EmailNotVerified => "email not verified"@,
        }
    }
}

/// HTTP-facing counterpart of `AuthError`: the status code each kind maps to.
/// The transport layer turns these into actual responses.
#[derive(Clone, Copy, Debug, PartialEq, Eq, Structural)]
pub enum HttpAuthError {
    InternalError,
    InvalidPayload,
    InvalidCredentials,
    TokenExpired,
    EmailAlreadyExists,
    EmailNotVerified,
}

impl HttpAuthError {
    /// Translate a core failure kind into its HTTP-facing counterpart.
    pub fn from_auth_error(value: AuthError) -> (r: HttpAuthError)
        ensures
            r == Self::from_auth_error_spec(value),
    {
        match value {
            AuthError::InternalError => HttpAuthError::InternalError,
            AuthError::InvalidPayload => HttpAuthError::InvalidPayload,
            AuthError::InvalidCredentials => HttpAuthError::InvalidCredentials,
            AuthError::TokenExpired => HttpAuthError::TokenExpired,
            AuthError::EmailAlreadyExists => HttpAuthError::EmailAlreadyExists,
            AuthError::EmailNotVerified => HttpAuthError::EmailNotVerified,
        }
    }

    pub open spec fn from_auth_error_spec(value: AuthError) -> HttpAuthError {
        match value {
            AuthError::InternalError => HttpAuthError::InternalError,
            AuthError::InvalidPayload => HttpAuthError::InvalidPayload,
            AuthError::InvalidCredentials => HttpAuthError::InvalidCredentials,
            AuthError::TokenExpired => HttpAuthError::TokenExpired,
            AuthError::EmailAlreadyExists => HttpAuthError::EmailAlreadyExists,
            AuthError::EmailNotVerified => HttpAuthError::EmailNotVerified,
        }
    }

    /// The HTTP status code for this failure kind: server error for
    /// infrastructure failures, bad request for malformed or conflicting
    /// input, unauthorized for credential and token failures.
    pub fn status_code(&self) -> (r: u16)
        ensures
            r == self.status_code_spec(),
    {
        match self {
            HttpAuthError::InternalError => 500,
            HttpAuthError::InvalidPayload => 400,
            HttpAuthError::InvalidCredentials => 401,
            HttpAuthError::TokenExpired => 401,
            HttpAuthError::EmailAlreadyExists => 400,
            HttpAuthError::EmailNotVerified => 401,
        }
    }

    pub open spec fn status_code_spec(&self) -> u16 {
        match self {
            HttpAuthError::InternalError => 500,
            HttpAuthError::InvalidPayload => 400,
            HttpAuthError::InvalidCredentials => 401,
            HttpAuthError::TokenExpired => 401,
            HttpAuthError::EmailAlreadyExists => 400,
            HttpAuthError::EmailNotVerified => 401,
        }
    }

    /// Short description of the failure kind (stands in for `Display`).
    pub fn message(&self) -> (r: &'static str)
        ensures
            r@ == self.message_spec(),
    {
        match self {
            HttpAuthError::InternalError => "internal error",
            HttpAuthError::InvalidPayload => "invalid payload",
            HttpAuthError::InvalidCredentials => "invalid credentials",
            HttpAuthError::TokenExpired => "token expired",
            HttpAuthError::EmailAlreadyExists => "email already exists",
            HttpAuthError::EmailNotVerified => "email not verified",
        }
    }

    pub open spec fn message_spec(&self) -> Seq<char> {
        match self {
            HttpAuthError::InternalError => "internal error"@,
            HttpAuthError::InvalidPayload => "invalid payload"@,
            HttpAuthError::InvalidCredentials => "invalid credentials"@,
            HttpAuthError::TokenExpired => "token expired"@,
            HttpAuthError::EmailAlreadyExists => "email already exists"@,
            HttpAuthError::EmailNotVerified => "email not verified"@,
        }
    }
}

} // verus!
