//! Durable user records and the role attribute.

use vstd::prelude::*;

use crate::errors::UserError;

verus! {

/// Flat enumerated role attribute of a user.
#[derive(Clone, Copy, Debug, PartialEq, Eq, Structural)]
pub enum UserRole {
    User,
    Manager,
    Admin,
}

impl UserRole {
    /// Parse the stored string form of a role, strictly: an unrecognized
    /// value is an internal error, never silently defaulted.
    pub fn from_stored(value: &String) -> (r: Result<UserRole, UserError>)
        ensures
            r == UserRole::from_stored_spec(value@),
    {
        if *value == String::from_str("user") {
            Ok(UserRole::User)
        } else if *value == String::from_str("manager") {
            Ok(UserRole::Manager)
        } else if *value == String::from_str("admin") {
            Ok(UserRole::Admin)
        } else {
            Err(UserError::InternalError)
        }
    }

    pub open spec fn from_stored_spec(value: Seq<char>) -> Result<UserRole, UserError> {
        if value == "user"@ {
            Ok(UserRole::User)
        } else if value == "manager"@ {
            Ok(UserRole::Manager)
        } else if value == "admin"@ {
            Ok(UserRole::Admin)
        } else {
            Err(UserError::InternalError)
        }
    }

    /// The stored string form of this role.
    pub fn as_stored(&self) -> (r: &'static str)
        ensures
            r@ == self.as_stored_spec(),
    {
        match self {
            UserRole::User => "user",
            UserRole::Manager => "manager",
            UserRole::Admin => "admin",
        }
    }

    pub open spec fn as_stored_spec(&self) -> Seq<char> {
        match self {
            UserRole::User => "user"@,
            UserRole::Manager => "manager"@,
            UserRole::Admin => "admin"@,
        }
    }
}

/// A durable user record. The password hash is opaque: it is only ever
/// compared through the password hasher, never decoded, and the transport
/// layer must not serialize it outward. Timestamps are UTC seconds.
#[derive(Debug)]
pub struct User {
    pub id: i64,
    pub first_name: String,
    pub last_name: String,
    pub email: String,
    pub profile_picture: Option<String>,
    pub password_hash: String,
    pub email_verified: bool,
    pub user_role: UserRole,
    pub last_login: i64,
    pub created_at: i64,
    pub updated_at: i64,
}

impl Clone for User {
    fn clone(&self) -> (res: User)
        ensures
            res == *self,
    {
        User {
            id: self.id,
            first_name: self.first_name.clone(),
            last_name: self.last_name.clone(),
            email: self.email.clone(),
            profile_picture: match &self.profile_picture {
                Some(p) => Some(p.clone()),
                None => None,
            },
            password_hash: self.password_hash.clone(),
            email_verified: self.email_verified,
            user_role: self.user_role,
            last_login: self.last_login,
            created_at: self.created_at,
            updated_at: self.updated_at,
        }
    }
}

} // verus!
