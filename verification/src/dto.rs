//! Request and response shapes of the authentication operations, as the
//! transport layer exchanges them. Transport framing and serialization live
//! outside the core.

use vstd::prelude::*;

use crate::user::User;

verus! {

/// Registration request.
#[derive(Debug, Clone)]
pub struct UserRegisterDTO {
    pub first_name: String,
    pub last_name: String,
    pub email: String,
    pub password: String,
}

/// Login request.
#[derive(Debug, Clone)]
pub struct UserLoginDTO {
    pub email: String,
    pub password: String,
}

/// Successful login response: the user and its two fresh tokens.
#[derive(Debug, Clone)]
pub struct UserLoggedInDTO {
    pub user: User,
    pub refresh_token: String,
    pub access_token: String,
}

/// Token refresh request.
#[derive(Debug, Clone)]
pub struct UserRefreshTokenDTO {
    pub refresh_token: String,
}

/// Successful token refresh response.
#[derive(Debug, Clone)]
pub struct UserNewAccessTokenDTO {
    pub access_token: String,
}

/// Logout request.
#[derive(Debug, Clone)]
pub struct UserLogoutDTO {
    pub refresh_token: String,
}

} // verus!
