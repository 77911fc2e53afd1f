//! Authentication and session lifecycle core: password-credential issuance,
//! short-lived stateless access tokens, long-lived revocable refresh tokens,
//! and authorization lookups.

pub mod config;
pub mod credential;
pub mod dto;
pub mod email;
pub mod errors;
pub mod hashing;
pub mod laws;
pub mod models;
pub mod service;
pub mod session;
pub mod token;
pub mod user;

pub use credential::CredentialStore;
pub use email::new_email_service_devel;
pub use email::EmailService;
pub use email::EmailServiceDevelImpl;
pub use email::EmailServiceImpl;
pub use errors::AuthError;
pub use errors::HttpAuthError;
pub use errors::UserError;
pub use service::new_user_service;
pub use service::UserService;
pub use session::RefreshToken;
pub use session::SessionStore;
pub use token::AccessTokenClaims;
pub use user::User;
pub use user::UserRole;
