//! The two stores in isolation, and the small model types.

use ecommercers::models::OrderStatus;
use ecommercers::AuthError;
use ecommercers::CredentialStore;
use ecommercers::HttpAuthError;
use ecommercers::SessionStore;
use ecommercers::UserError;
use ecommercers::UserRole;

const NOW: i64 = 1_700_000_000;

#[test]
fn credential_store_create_and_find() {
    let mut store = CredentialStore::new();
    let user = store
        .create(
            "Ada".to_string(),
            "Lovelace".to_string(),
            "a@x.com".to_string(),
            "phc-hash".to_string(),
            NOW,
        )
        .expect("creation succeeds");
    assert_eq!(user.id, 1);
    assert!(matches!(user.user_role, UserRole::User));

    let by_email = store.find_by_email(&"a@x.com".to_string()).expect("email is known");
    assert_eq!(by_email.id, 1);
    let by_id = store.find_by_id(1).expect("id is known");
    assert_eq!(by_id.email, "a@x.com");
    assert!(matches!(
        store.find_by_email(&"b@x.com".to_string()),
        Err(UserError::UserNotFound)
    ));
    assert!(matches!(store.find_by_id(2), Err(UserError::UserNotFound)));
}

#[test]
fn credential_store_rejects_duplicate_email() {
    let mut store = CredentialStore::new();
    store
        .create(
            "Ada".to_string(),
            "Lovelace".to_string(),
            "a@x.com".to_string(),
            "phc-hash".to_string(),
            NOW,
        )
        .expect("creation succeeds");
    let second = store.create(
        "Grace".to_string(),
        "Hopper".to_string(),
        "a@x.com".to_string(),
        "other-hash".to_string(),
        NOW,
    );
    assert!(matches!(second, Err(UserError::EmailAlreadyExists)));
}

#[test]
fn credential_store_has_role() {
    let mut store = CredentialStore::new();
    let user = store
        .create(
            "Ada".to_string(),
            "Lovelace".to_string(),
            "a@x.com".to_string(),
            "phc-hash".to_string(),
            NOW,
        )
        .expect("creation succeeds");
    assert!(store.has_role(user.id, &vec![UserRole::User, UserRole::Admin]));
    assert!(!store.has_role(user.id, &vec![UserRole::Manager, UserRole::Admin]));
    assert!(!store.has_role(99, &vec![UserRole::User]));
}

#[test]
fn credential_store_marks_email_verified() {
    let mut store = CredentialStore::new();
    let user = store
        .create(
            "Ada".to_string(),
            "Lovelace".to_string(),
            "a@x.com".to_string(),
            "phc-hash".to_string(),
            NOW,
        )
        .expect("creation succeeds");
    assert!(!user.email_verified);
    store.mark_email_verified(user.id).expect("user exists");
    let reread = store.find_by_id(user.id).expect("id is known");
    assert!(reread.email_verified);
    assert!(matches!(store.mark_email_verified(99), Err(UserError::UserNotFound)));
}

#[test]
fn session_store_save_validate_remove() {
    let mut store = SessionStore::new();
    store
        .save_refresh_token(7, "token-a".to_string(), NOW + 100)
        .expect("save succeeds");
    let record = store
        .validate_refresh_token(&"token-a".to_string(), NOW)
        .expect("live token validates");
    assert_eq!(record.user_id, 7);
    assert_eq!(record.token, "token-a");
    assert_eq!(record.expires_at, NOW + 100);

    let expired = store.validate_refresh_token(&"token-a".to_string(), NOW + 100);
    assert!(matches!(expired, Err(AuthError::InvalidCredentials)));
    let unknown = store.validate_refresh_token(&"token-b".to_string(), NOW);
    assert!(matches!(unknown, Err(AuthError::InvalidCredentials)));

    store.remove_refresh_token(&"token-a".to_string()).expect("removal succeeds");
    let gone = store.validate_refresh_token(&"token-a".to_string(), NOW);
    assert!(matches!(gone, Err(AuthError::InvalidCredentials)));
    store.remove_refresh_token(&"token-a".to_string()).expect("removal is idempotent");
}

#[test]
fn session_store_replaces_record_with_same_token() {
    let mut store = SessionStore::new();
    store.save_refresh_token(7, "token-a".to_string(), NOW + 100).expect("save succeeds");
    store.save_refresh_token(8, "token-a".to_string(), NOW + 200).expect("save succeeds");
    let record = store
        .validate_refresh_token(&"token-a".to_string(), NOW + 150)
        .expect("replaced record is live longer");
    assert_eq!(record.user_id, 8);
    assert_eq!(record.expires_at, NOW + 200);
}

#[test]
fn session_store_revokes_all_of_one_user() {
    let mut store = SessionStore::new();
    store.save_refresh_token(7, "token-a".to_string(), NOW + 100).expect("save succeeds");
    store.save_refresh_token(7, "token-b".to_string(), NOW + 100).expect("save succeeds");
    store.save_refresh_token(9, "token-c".to_string(), NOW + 100).expect("save succeeds");
    store.terminal_user_sessions(7).expect("bulk revocation succeeds");
    assert!(store.validate_refresh_token(&"token-a".to_string(), NOW).is_err());
    assert!(store.validate_refresh_token(&"token-b".to_string(), NOW).is_err());
    assert!(store.validate_refresh_token(&"token-c".to_string(), NOW).is_ok());
}

#[test]
fn user_role_parses_strictly() {
    assert!(matches!(UserRole::from_stored(&"user".to_string()), Ok(UserRole::User)));
    assert!(matches!(UserRole::from_stored(&"manager".to_string()), Ok(UserRole::Manager)));
    assert!(matches!(UserRole::from_stored(&"admin".to_string()), Ok(UserRole::Admin)));
    assert!(matches!(
        UserRole::from_stored(&"root".to_string()),
        Err(UserError::InternalError)
    ));
    assert_eq!(UserRole::Manager.as_stored(), "manager");
}

#[test]
fn order_status_round_trips() {
    let all = [
        OrderStatus::Pending,
        OrderStatus::Processing,
        OrderStatus::Shipped,
        OrderStatus::Delivered,
        OrderStatus::Cancelled,
        OrderStatus::Error,
    ];
    for status in all {
        let stored = status.as_stored().to_string();
        let parsed = OrderStatus::from_stored(&stored).expect("stored form parses");
        assert_eq!(parsed, status);
    }
    assert!(OrderStatus::from_stored(&"Unknown".to_string()).is_err());
}

#[test]
fn http_error_mapping_and_status_codes() {
    let cases = [
        (AuthError::InternalError, 500),
        (AuthError::InvalidPayload, 400),
        (AuthError::InvalidCredentials, 401),
        (AuthError::TokenExpired, 401),
        (AuthError::EmailAlreadyExists, 400),
        (AuthError::EmailNotVerified, 401),
    ];
    for (kind, code) in cases {
        let http = HttpAuthError::from_auth_error(kind);
        assert_eq!(http.status_code(), code);
    }
    assert_eq!(AuthError::TokenExpired.message(), "token expired");
    assert_eq!(HttpAuthError::InvalidCredentials.message(), "invalid credentials");
}
