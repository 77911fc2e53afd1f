//! End-to-end lifecycle of the authentication service: register, verify,
//! login, refresh, authorize, logout.

use ecommercers::new_email_service_devel;
use ecommercers::new_user_service;
use ecommercers::AuthError;
use ecommercers::CredentialStore;
use ecommercers::EmailServiceDevelImpl;
use ecommercers::SessionStore;
use ecommercers::UserService;

const NOW: i64 = 1_700_000_000;

fn service(secret: &str) -> UserService<EmailServiceDevelImpl> {
    new_user_service(
        secret.to_string(),
        CredentialStore::new(),
        SessionStore::new(),
        new_email_service_devel(),
    )
}

fn registered_service(secret: &str) -> UserService<EmailServiceDevelImpl> {
    let mut svc = service(secret);
    let user = svc
        .register(
            "Ada".to_string(),
            "Lovelace".to_string(),
            "a@x.com".to_string(),
            "secret".to_string(),
            NOW,
        )
        .expect("registration succeeds");
    svc.mark_email_verified(user.id).expect("user exists");
    svc
}

#[test]
fn register_returns_new_user() {
    let mut svc = service("jwt-secret");
    let user = svc
        .register(
            "Ada".to_string(),
            "Lovelace".to_string(),
            "a@x.com".to_string(),
            "secret".to_string(),
            NOW,
        )
        .expect("registration succeeds");
    assert_eq!(user.id, 1);
    assert_eq!(user.first_name, "Ada");
    assert_eq!(user.last_name, "Lovelace");
    assert_eq!(user.email, "a@x.com");
    assert!(!user.email_verified);
    assert_eq!(user.created_at, NOW);
}

#[test]
fn register_same_email_twice_conflicts() {
    let mut svc = service("jwt-secret");
    let first = svc.register(
        "Ada".to_string(),
        "Lovelace".to_string(),
        "a@x.com".to_string(),
        "secret".to_string(),
        NOW,
    );
    assert!(first.is_ok());
    let second = svc.register(
        "Grace".to_string(),
        "Hopper".to_string(),
        "a@x.com".to_string(),
        "other".to_string(),
        NOW + 5,
    );
    assert!(matches!(second, Err(AuthError::EmailAlreadyExists)));
}

#[test]
fn login_fails_until_email_verified() {
    let mut svc = service("jwt-secret");
    let user = svc
        .register(
            "Ada".to_string(),
            "Lovelace".to_string(),
            "a@x.com".to_string(),
            "secret".to_string(),
            NOW,
        )
        .expect("registration succeeds");
    let blocked = svc.login("a@x.com".to_string(), "secret".to_string(), NOW + 1);
    assert!(matches!(blocked, Err(AuthError::EmailNotVerified)));

    svc.mark_email_verified(user.id).expect("user exists");
    let (logged_in, refresh_token, access_token) = svc
        .login("a@x.com".to_string(), "secret".to_string(), NOW + 2)
        .expect("login succeeds after verification");
    assert_eq!(logged_in.id, user.id);
    assert!(!refresh_token.is_empty());
    assert!(!access_token.is_empty());
}

#[test]
fn login_with_wrong_password_fails() {
    let mut svc = registered_service("jwt-secret");
    let wrong = svc.login("a@x.com".to_string(), "Secret".to_string(), NOW + 1);
    assert!(matches!(wrong, Err(AuthError::InvalidCredentials)));
}

#[test]
fn login_with_unknown_email_fails() {
    let mut svc = registered_service("jwt-secret");
    let unknown = svc.login("b@x.com".to_string(), "secret".to_string(), NOW + 1);
    assert!(matches!(unknown, Err(AuthError::InvalidCredentials)));
}

#[test]
fn refresh_token_is_sixty_hex_chars() {
    let mut svc = registered_service("jwt-secret");
    let (_, refresh_token, _) = svc
        .login("a@x.com".to_string(), "secret".to_string(), NOW + 1)
        .expect("login succeeds");
    assert_eq!(refresh_token.len(), 60);
    assert!(refresh_token.chars().all(|c| c.is_ascii_hexdigit()));
}

#[test]
fn refresh_returns_token_for_same_user() {
    let mut svc = registered_service("jwt-secret");
    let (user, refresh_token, _) = svc
        .login("a@x.com".to_string(), "secret".to_string(), NOW + 1)
        .expect("login succeeds");
    let new_access = svc
        .refresh_token(refresh_token, NOW + 100)
        .expect("live refresh token is accepted");
    let authorized = svc
        .authorization(new_access, NOW + 101)
        .expect("fresh access token authorizes");
    assert_eq!(authorized.id, user.id);
}

#[test]
fn refresh_with_unknown_token_fails() {
    let mut svc = registered_service("jwt-secret");
    let r = svc.refresh_token("deadbeef".to_string(), NOW + 1);
    assert!(matches!(r, Err(AuthError::InvalidCredentials)));
}

#[test]
fn refresh_after_expiry_fails() {
    let mut svc = registered_service("jwt-secret");
    let (_, refresh_token, _) = svc
        .login("a@x.com".to_string(), "secret".to_string(), NOW + 1)
        .expect("login succeeds");
    let thirty_days: i64 = 30 * 24 * 60 * 60;
    let late = svc.refresh_token(refresh_token, NOW + 1 + thirty_days);
    assert!(matches!(late, Err(AuthError::InvalidCredentials)));
}

#[test]
fn logout_revokes_immediately_and_is_idempotent() {
    let mut svc = registered_service("jwt-secret");
    let (_, refresh_token, _) = svc
        .login("a@x.com".to_string(), "secret".to_string(), NOW + 1)
        .expect("login succeeds");
    svc.logout(refresh_token.clone()).expect("logout succeeds");
    let replay = svc.refresh_token(refresh_token.clone(), NOW + 2);
    assert!(matches!(replay, Err(AuthError::InvalidCredentials)));
    svc.logout(refresh_token).expect("second logout also succeeds");
}

#[test]
fn concurrent_sessions_are_independent() {
    let mut svc = registered_service("jwt-secret");
    let (user, first_token, _) = svc
        .login("a@x.com".to_string(), "secret".to_string(), NOW + 1)
        .expect("first login succeeds");
    let (second_user, second_token, _) = svc
        .login("a@x.com".to_string(), "secret".to_string(), NOW + 2)
        .expect("second login succeeds");
    assert_eq!(user.id, second_user.id);
    assert_ne!(first_token, second_token);

    svc.logout(first_token.clone()).expect("logout succeeds");
    assert!(matches!(
        svc.refresh_token(first_token, NOW + 3),
        Err(AuthError::InvalidCredentials)
    ));
    assert!(svc.refresh_token(second_token, NOW + 3).is_ok());
}
