//! Access-token encode/decode behaviour: expiry, tampering, and secrets.

use ecommercers::new_email_service_devel;
use ecommercers::new_user_service;
use ecommercers::token::generate_access_token;
use ecommercers::token::validate_access_token;
use ecommercers::AuthError;
use ecommercers::CredentialStore;
use ecommercers::EmailServiceDevelImpl;
use ecommercers::SessionStore;
use ecommercers::UserService;

const NOW: i64 = 1_700_000_000;

fn verified_service(secret: &str) -> UserService<EmailServiceDevelImpl> {
    let mut svc = new_user_service(
        secret.to_string(),
        CredentialStore::new(),
        SessionStore::new(),
        new_email_service_devel(),
    );
    let user = svc
        .register(
            "Ada".to_string(),
            "Lovelace".to_string(),
            "a@x.com".to_string(),
            "secret".to_string(),
            NOW,
        )
        .expect("registration succeeds");
    svc.mark_email_verified(user.id).expect("user exists");
    svc
}

#[test]
fn encode_then_validate_returns_claims() {
    let secret = "token-secret".to_string();
    let token = generate_access_token(42, NOW + 600, &secret).expect("signing succeeds");
    let claims = validate_access_token(&token, &secret, NOW).expect("fresh token validates");
    assert_eq!(claims.user_id, 42);
    assert_eq!(claims.exp, NOW + 600);
}

#[test]
fn encode_is_deterministic() {
    let secret = "token-secret".to_string();
    let first = generate_access_token(42, NOW + 600, &secret).expect("signing succeeds");
    let second = generate_access_token(42, NOW + 600, &secret).expect("signing succeeds");
    assert_eq!(first, second);
}

#[test]
fn validate_rejects_expired_claims() {
    let secret = "token-secret".to_string();
    let token = generate_access_token(42, NOW + 600, &secret).expect("signing succeeds");
    let at_expiry = validate_access_token(&token, &secret, NOW + 600);
    assert!(matches!(at_expiry, Err(AuthError::TokenExpired)));
    let after_expiry = validate_access_token(&token, &secret, NOW + 601);
    assert!(matches!(after_expiry, Err(AuthError::TokenExpired)));
}

#[test]
fn validate_rejects_wrong_secret() {
    let token = generate_access_token(42, NOW + 600, &"first-secret".to_string())
        .expect("signing succeeds");
    let r = validate_access_token(&token, &"second-secret".to_string(), NOW);
    assert!(matches!(r, Err(AuthError::InvalidCredentials)));
}

#[test]
fn validate_rejects_garbage() {
    let r = validate_access_token(&"not.a.token".to_string(), &"secret".to_string(), NOW);
    assert!(matches!(r, Err(AuthError::InvalidCredentials)));
}

#[test]
fn authorize_succeeds_before_expiry_and_expires_after() {
    let mut svc = verified_service("jwt-secret");
    let (user, _, access_token) = svc
        .login("a@x.com".to_string(), "secret".to_string(), NOW + 1)
        .expect("login succeeds");
    let authorized = svc
        .authorization(access_token.clone(), NOW + 2)
        .expect("authorizes while fresh");
    assert_eq!(authorized.id, user.id);
    let expired = svc.authorization(access_token, NOW + 1 + 600);
    assert!(matches!(expired, Err(AuthError::TokenExpired)));
}

#[test]
fn authorize_rejects_token_from_other_secret() {
    let mut svc = verified_service("jwt-secret");
    let mut other = verified_service("another-secret");
    let (_, _, access_token) = other
        .login("a@x.com".to_string(), "secret".to_string(), NOW + 1)
        .expect("login succeeds");
    let r = svc.authorization(access_token, NOW + 2);
    assert!(matches!(r, Err(AuthError::InvalidCredentials)));
}

#[test]
fn authorize_rejects_tampered_token() {
    let mut svc = verified_service("jwt-secret");
    let (_, _, access_token) = svc
        .login("a@x.com".to_string(), "secret".to_string(), NOW + 1)
        .expect("login succeeds");
    let mut tampered = access_token.into_bytes();
    let last = tampered.len() - 1;
    tampered[last] = if tampered[last] == b'A' { b'B' } else { b'A' };
    let tampered = String::from_utf8(tampered).unwrap();
    let r = svc.authorization(tampered, NOW + 2);
    assert!(matches!(r, Err(AuthError::InvalidCredentials)));
}
