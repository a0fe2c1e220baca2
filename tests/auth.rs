use shop_auth::claims::{AccessTokenClaims, RefreshTokenClaims};
use shop_auth::codec::{
    decode_access_token, decode_refresh_token, encode_access_token, encode_refresh_token,
};
use shop_auth::error::{AuthError, SessionError};
use shop_auth::guard::{authorize_access, authorize_refresh};
use shop_auth::password::{create_hash, validate_hash, DEFAULT_COST};
use shop_auth::session::{
    create_tokens_pair, create_user, login_user, logout, refresh_token,
    update_user_email_or_password, AuthConfig,
};
use shop_auth::user::{NewUser, UpdateUserPayload, User, UserRole};

const NOW: u64 = 1_700_000_000;
const ALICE_ID: &str = "3f2b8c1e-9a4d-4e6f-b7c8-0d1e2f3a4b5c";
const BOB_ID: &str = "7a1c2d3e-4f5a-4b6c-8d7e-9f0a1b2c3d4e";

fn config() -> AuthConfig {
    let mut c = AuthConfig::new(b"access-secret".to_vec(), b"refresh-secret".to_vec());
    c.hash_cost = 4;
    c
}

fn new_user(email: &str, password: &str) -> NewUser {
    NewUser { email: email.to_string(), password: password.to_string() }
}

fn update(email: Option<&str>, current: Option<&str>, new: Option<&str>) -> UpdateUserPayload {
    UpdateUserPayload {
        email: email.map(str::to_string),
        current_password: current.map(str::to_string),
        new_password: new.map(str::to_string),
    }
}

fn alice() -> User {
    create_user(ALICE_ID.to_string(), new_user("alice@example.com", "Secret1"), &config()).unwrap()
}

fn access_claims(exp: u64) -> AccessTokenClaims {
    AccessTokenClaims {
        sub: "0b6c3a4e-1f2d-4c5b-8a9e-7d6f5e4c3b2a".to_string(),
        email: "alice@example.com".to_string(),
        role: "user".to_string(),
        exp,
    }
}

#[test]
fn hash_then_validate_accepts_same_password() {
    let digest = create_hash("Secret1", 4).unwrap();
    assert_ne!(digest, "Secret1");
    assert!(digest.starts_with("$2"));
    assert_eq!(validate_hash("Secret1", &digest), Ok(true));
    assert_eq!(validate_hash("Secret2", &digest), Ok(false));
}

#[test]
fn hash_rejects_cost_out_of_range() {
    assert_eq!(create_hash("Secret1", 3), Err(SessionError::Hashing));
    assert_eq!(create_hash("Secret1", 32), Err(SessionError::Hashing));
}

#[test]
fn validate_rejects_malformed_digest() {
    assert_eq!(validate_hash("Secret1", "not-a-digest"), Err(SessionError::Hashing));
}

#[test]
fn access_token_round_trip() {
    let claims = access_claims(NOW + 300);
    let token = encode_access_token(&claims, b"k1").unwrap();
    assert_eq!(token.split('.').count(), 3);
    assert_eq!(decode_access_token(&token, b"k1", NOW), Ok(claims));
}

#[test]
fn refresh_token_round_trip() {
    let claims = RefreshTokenClaims { sub: "id-1".to_string(), exp: NOW + 604800, ctr: 3 };
    let token = encode_refresh_token(&claims, b"k2").unwrap();
    assert_eq!(decode_refresh_token(&token, b"k2", NOW), Ok(claims));
}

#[test]
fn round_trip_keeps_unusual_text() {
    let mut claims = access_claims(NOW);
    claims.email = "a\"b\\c\u{e9}\u{1F600}@x".to_string();
    let token = encode_access_token(&claims, b"k1").unwrap();
    assert_eq!(decode_access_token(&token, b"k1", NOW), Ok(claims));
}

#[test]
fn expired_by_one_second_fails() {
    let token = encode_access_token(&access_claims(NOW - 1), b"k1").unwrap();
    assert_eq!(decode_access_token(&token, b"k1", NOW), Err(AuthError::InvalidToken));
    let rt = encode_refresh_token(&RefreshTokenClaims { sub: "s".to_string(), exp: NOW - 1, ctr: 0 }, b"k2").unwrap();
    assert_eq!(decode_refresh_token(&rt, b"k2", NOW), Err(AuthError::InvalidToken));
}

#[test]
fn expiring_in_an_hour_decodes() {
    let claims = access_claims(NOW + 3600);
    let token = encode_access_token(&claims, b"k1").unwrap();
    assert_eq!(decode_access_token(&token, b"k1", NOW), Ok(claims));
}

#[test]
fn expiry_equal_to_now_still_decodes() {
    let claims = access_claims(NOW);
    let token = encode_access_token(&claims, b"k1").unwrap();
    assert_eq!(decode_access_token(&token, b"k1", NOW), Ok(claims));
    assert_eq!(decode_access_token(&token, b"k1", NOW + 1), Err(AuthError::InvalidToken));
}

#[test]
fn wrong_secret_fails() {
    let token = encode_access_token(&access_claims(NOW + 300), b"k1").unwrap();
    assert_eq!(decode_access_token(&token, b"other", NOW), Err(AuthError::InvalidToken));
}

#[test]
fn tampered_or_malformed_token_fails() {
    let token = encode_access_token(&access_claims(NOW + 300), b"k1").unwrap();
    let mut tampered = token.clone();
    tampered.push('x');
    assert_eq!(decode_access_token(&tampered, b"k1", NOW), Err(AuthError::InvalidToken));
    assert_eq!(decode_access_token("a.b.c", b"k1", NOW), Err(AuthError::InvalidToken));
    assert_eq!(decode_access_token("", b"k1", NOW), Err(AuthError::InvalidToken));
}

#[test]
fn refresh_token_is_not_an_access_token() {
    let rt = encode_refresh_token(&RefreshTokenClaims { sub: "s".to_string(), exp: NOW + 10, ctr: 0 }, b"k").unwrap();
    assert_eq!(decode_access_token(&rt, b"k", NOW), Err(AuthError::InvalidToken));
}

#[test]
fn guards_reject_missing_header_and_secret() {
    assert_eq!(authorize_access(None, Some(b"k".as_slice()), NOW), Err(AuthError::InvalidToken));
    assert_eq!(authorize_access(Some("t"), None, NOW), Err(AuthError::MissingSecret));
    assert_eq!(authorize_refresh(None, None, NOW), Err(AuthError::InvalidToken));
    assert_eq!(authorize_refresh(Some("t"), None, NOW), Err(AuthError::MissingSecret));
    assert_eq!(authorize_refresh(Some("t"), Some(b"k".as_slice()), NOW), Err(AuthError::InvalidToken));
}

#[test]
fn guard_yields_claims_of_valid_token() {
    let claims = access_claims(NOW + 300);
    let token = encode_access_token(&claims, b"k").unwrap();
    assert_eq!(authorize_access(Some(&token), Some(b"k".as_slice()), NOW), Ok(claims));
}

#[test]
fn error_statuses_and_messages() {
    assert_eq!(AuthError::MissingSecret.status_code(), 500);
    assert_eq!(AuthError::InvalidToken.status_code(), 401);
    assert_eq!(AuthError::WrongCredentials.status_code(), 401);
    assert_eq!(AuthError::InvalidToken.message(), "Invalid token");
    assert_eq!(SessionError::InvalidPassword.status_code(), 401);
    assert_eq!(SessionError::InvalidPassword.message(), "Invalid password");
    assert_eq!(SessionError::UseLoginInstead.message(), "Please, use login instead");
    assert_eq!(SessionError::NothingToUpdate.status_code(), 400);
    assert_eq!(SessionError::TokenCreation.status_code(), 500);
}

#[test]
fn config_needs_both_secrets() {
    assert_eq!(
        AuthConfig::from_secrets(None, Some(b"r".to_vec())).err(),
        Some(AuthError::MissingSecret)
    );
    assert_eq!(
        AuthConfig::from_secrets(Some(b"a".to_vec()), None).err(),
        Some(AuthError::MissingSecret)
    );
    let c = AuthConfig::from_secrets(Some(b"a".to_vec()), Some(b"r".to_vec())).unwrap();
    assert_eq!(c.access_ttl, 300);
    assert_eq!(c.refresh_ttl, 604800);
    assert_eq!(c.hash_cost, 12);
}

#[test]
fn roles_as_text() {
    assert_eq!(UserRole::User.as_str(), "user");
    assert_eq!(UserRole::Seller.as_str(), "seller");
    assert_eq!(UserRole::Admin.as_str(), "admin");
}

#[test]
fn signup_makes_account_without_session() {
    let u = alice();
    assert_eq!(u.email, "alice@example.com");
    assert_eq!(u.role, "user");
    assert_eq!(u.id, ALICE_ID);
    assert!(u.hashed_rt.is_none());
    assert_ne!(u.password_hash, "Secret1");
    assert_eq!(validate_hash("Secret1", &u.password_hash), Ok(true));
    let safe = u.to_safe();
    assert_eq!(safe.id, u.id);
    assert_eq!(safe.role, "user");
}

#[test]
fn signup_then_login_names_the_account() {
    let cfg = config();
    let mut u = alice();
    let tokens = login_user(&mut u, "Secret1", &cfg, NOW).unwrap();
    let access = decode_access_token(&tokens.access_token, &cfg.access_secret, NOW).unwrap();
    assert_eq!(access.sub, u.id);
    assert_eq!(access.email, "alice@example.com");
    assert_eq!(access.role, "user");
    assert_eq!(access.exp, NOW + 300);
    let refresh = decode_refresh_token(&tokens.refresh_token, &cfg.refresh_secret, NOW).unwrap();
    assert_eq!(refresh.sub, u.id);
    assert_eq!(refresh.exp, NOW + 604800);
    let stored = u.hashed_rt.clone().unwrap();
    assert_eq!(validate_hash(&tokens.refresh_token, &stored), Ok(true));
}

#[test]
fn access_token_does_not_open_with_refresh_secret() {
    let cfg = config();
    let mut u = alice();
    let tokens = login_user(&mut u, "Secret1", &cfg, NOW).unwrap();
    assert_eq!(
        decode_access_token(&tokens.access_token, &cfg.refresh_secret, NOW),
        Err(AuthError::InvalidToken)
    );
}

#[test]
fn wrong_password_fails_without_touching_session() {
    let cfg = config();
    let mut u = alice();
    assert_eq!(login_user(&mut u, "Secret2", &cfg, NOW), Err(SessionError::InvalidPassword));
    assert!(u.hashed_rt.is_none());
    login_user(&mut u, "Secret1", &cfg, NOW).unwrap();
    let before = u.hashed_rt.clone();
    assert_eq!(login_user(&mut u, "wrong", &cfg, NOW + 5), Err(SessionError::InvalidPassword));
    assert_eq!(u.hashed_rt, before);
}

#[test]
fn rotation_scenario() {
    let cfg = config();
    let mut u = alice();
    let first = login_user(&mut u, "Secret1", &cfg, NOW).unwrap();
    let second = refresh_token(&mut u, &first.refresh_token, &cfg, NOW + 1).unwrap();
    assert_ne!(second.refresh_token, first.refresh_token);
    assert_eq!(
        refresh_token(&mut u, &first.refresh_token, &cfg, NOW + 2),
        Err(SessionError::InvalidRefreshToken)
    );
    let third = refresh_token(&mut u, &second.refresh_token, &cfg, NOW + 3).unwrap();
    let refresh = decode_refresh_token(&third.refresh_token, &cfg.refresh_secret, NOW + 3).unwrap();
    assert_eq!(refresh.sub, u.id);
    assert_eq!(refresh.exp, NOW + 3 + 604800);
    assert_eq!(refresh.ctr, 2);
}

#[test]
fn refresh_in_the_same_second_still_rotates() {
    let cfg = config();
    let mut u = alice();
    let first = login_user(&mut u, "Secret1", &cfg, NOW).unwrap();
    let second = refresh_token(&mut u, &first.refresh_token, &cfg, NOW).unwrap();
    assert_ne!(second.refresh_token, first.refresh_token);
    assert_eq!(
        refresh_token(&mut u, &first.refresh_token, &cfg, NOW),
        Err(SessionError::InvalidRefreshToken)
    );
    assert!(refresh_token(&mut u, &second.refresh_token, &cfg, NOW).is_ok());
}

#[test]
fn refresh_refuses_expired_or_foreign_token() {
    let cfg = config();
    let mut u = alice();
    let pair = login_user(&mut u, "Secret1", &cfg, NOW).unwrap();
    assert_eq!(
        refresh_token(&mut u, &pair.refresh_token, &cfg, NOW + 604801),
        Err(SessionError::InvalidRefreshToken)
    );
    let mut other = create_user(BOB_ID.to_string(), new_user("bob@example.com", "Secret2"), &cfg).unwrap();
    login_user(&mut other, "Secret2", &cfg, NOW).unwrap();
    let before = other.hashed_rt.clone();
    assert_eq!(
        refresh_token(&mut other, &pair.refresh_token, &cfg, NOW + 1),
        Err(SessionError::InvalidRefreshToken)
    );
    assert_eq!(other.hashed_rt, before);
    assert_eq!(
        refresh_token(&mut u, &pair.access_token, &cfg, NOW + 1),
        Err(SessionError::InvalidRefreshToken)
    );
}

#[test]
fn login_with_malformed_stored_digest_fails_hashing() {
    let cfg = config();
    let mut u = alice();
    u.password_hash = "not-a-digest".to_string();
    assert_eq!(login_user(&mut u, "Secret1", &cfg, NOW), Err(SessionError::Hashing));
    assert!(u.hashed_rt.is_none());
}

#[test]
fn digest_has_bcrypt_form() {
    let digest = create_hash("Secret1", 4).unwrap();
    assert_eq!(digest.len(), 60);
    assert!(digest.starts_with("$2b$04$"));
    assert_eq!(DEFAULT_COST, 12);
}

#[test]
fn signup_checks_email_and_password_length() {
    let cfg = config();
    assert_eq!(create_user(BOB_ID.to_string(), new_user("not-an-email", "Secret1"), &cfg).err(), Some(SessionError::InvalidEmail));
    assert_eq!(create_user(BOB_ID.to_string(), new_user("", "Secret1"), &cfg).err(), Some(SessionError::InvalidEmail));
    assert_eq!(
        create_user(BOB_ID.to_string(), new_user("bob@example.com", "short"), &cfg).err(),
        Some(SessionError::InvalidPasswordLength)
    );
    let long: String = "x".repeat(51);
    assert_eq!(
        create_user(BOB_ID.to_string(), new_user("bob@example.com", &long), &cfg).err(),
        Some(SessionError::InvalidPasswordLength)
    );
    let fifty: String = "\u{e9}".repeat(50);
    assert!(create_user(BOB_ID.to_string(), new_user("bob@example.com", &fifty), &cfg).is_ok());
    assert_eq!(SessionError::InvalidEmail.status_code(), 400);
}

#[test]
fn update_does_not_validate_fields() {
    let u = alice();
    let r = update_user_email_or_password(&u, update(Some("nope"), None, None), 4).unwrap();
    assert_eq!(r.email.as_deref(), Some("nope"));
    let r = update_user_email_or_password(&u, update(None, None, Some("abc")), 4);
    assert_eq!(r.err(), Some(SessionError::CurrentPasswordRequired));
    let r = update_user_email_or_password(&u, update(None, Some("Secret1"), Some("abc")), 4).unwrap();
    assert_eq!(validate_hash("abc", &r.password_hash.unwrap()), Ok(true));
}

#[test]
fn encoding_depends_on_claims_and_secret_only() {
    let claims = access_claims(NOW + 300);
    let a = encode_access_token(&claims, b"k1").unwrap();
    let b = encode_access_token(&claims.clone(), b"k1").unwrap();
    assert_eq!(a, b);
    assert_ne!(a, encode_access_token(&claims, b"k2").unwrap());
}

#[test]
fn access_token_is_refused_at_refresh_guard() {
    let cfg = config();
    let mut u = alice();
    let pair = login_user(&mut u, "Secret1", &cfg, NOW).unwrap();
    assert_eq!(
        authorize_refresh(Some(&pair.access_token), Some(cfg.refresh_secret.as_slice()), NOW),
        Err(AuthError::InvalidToken)
    );
    assert_eq!(
        authorize_refresh(Some(&pair.access_token), Some(cfg.access_secret.as_slice()), NOW),
        Err(AuthError::InvalidToken)
    );
    assert!(authorize_refresh(Some(&pair.refresh_token), Some(cfg.refresh_secret.as_slice()), NOW).is_ok());
}

#[test]
fn wrong_password_keeps_prior_session_redeemable() {
    let cfg = config();
    let mut u = alice();
    let pair = login_user(&mut u, "Secret1", &cfg, NOW).unwrap();
    assert_eq!(login_user(&mut u, "Secret9", &cfg, NOW + 1), Err(SessionError::InvalidPassword));
    assert_eq!(SessionError::InvalidPassword.status_code(), 401);
    assert!(refresh_token(&mut u, &pair.refresh_token, &cfg, NOW + 2).is_ok());
}

#[test]
fn logout_ends_session() {
    let cfg = config();
    let mut u = alice();
    let pair = login_user(&mut u, "Secret1", &cfg, NOW).unwrap();
    logout(&mut u);
    assert!(u.hashed_rt.is_none());
    assert_eq!(
        refresh_token(&mut u, &pair.refresh_token, &cfg, NOW + 1),
        Err(SessionError::UseLoginInstead)
    );
    logout(&mut u);
    assert!(u.hashed_rt.is_none());
}

#[test]
fn refresh_without_login_is_refused() {
    let cfg = config();
    let mut u = alice();
    assert_eq!(refresh_token(&mut u, "anything", &cfg, NOW), Err(SessionError::UseLoginInstead));
}

#[test]
fn new_login_invalidates_older_refresh_token() {
    let cfg = config();
    let mut u = alice();
    let first = login_user(&mut u, "Secret1", &cfg, NOW).unwrap();
    login_user(&mut u, "Secret1", &cfg, NOW + 1).unwrap();
    let before = u.hashed_rt.clone();
    assert_eq!(
        refresh_token(&mut u, &first.refresh_token, &cfg, NOW + 2),
        Err(SessionError::InvalidRefreshToken)
    );
    assert_eq!(u.hashed_rt, before);
}

#[test]
fn pair_past_the_largest_timestamp_is_refused() {
    let cfg = config();
    let r = create_tokens_pair(&cfg, u64::MAX - 10, &"id".to_string(), &"e".to_string(), &"user".to_string(), 0);
    assert_eq!(r, Err(SessionError::TokenCreation));
    let mut u = alice();
    assert_eq!(login_user(&mut u, "Secret1", &cfg, u64::MAX), Err(SessionError::TokenCreation));
    assert!(u.hashed_rt.is_none());
}

#[test]
fn bad_cost_fails_signup() {
    let mut cfg = config();
    cfg.hash_cost = 2;
    assert_eq!(
        create_user(BOB_ID.to_string(), new_user("bob@example.com", "Secret1"), &cfg).err(),
        Some(SessionError::Hashing)
    );
}

#[test]
fn update_needs_a_field() {
    let u = alice();
    let r = update_user_email_or_password(&u, update(None, Some("Secret1"), None), 4);
    assert_eq!(r.err(), Some(SessionError::NothingToUpdate));
}

#[test]
fn update_password_needs_current() {
    let u = alice();
    let r = update_user_email_or_password(&u, update(None, None, Some("NewPass1")), 4);
    assert_eq!(r.err(), Some(SessionError::CurrentPasswordRequired));
}

#[test]
fn update_password_checks_current() {
    let u = alice();
    let r = update_user_email_or_password(&u, update(None, Some("Wrong1"), Some("NewPass1")), 4);
    assert_eq!(r.err(), Some(SessionError::InvalidPassword));
}

#[test]
fn update_email_and_password() {
    let u = alice();
    let payload = update(Some("new@example.com"), Some("Secret1"), Some("NewPass1"));
    let r = update_user_email_or_password(&u, payload, 4).unwrap();
    assert_eq!(r.email.as_deref(), Some("new@example.com"));
    let digest = r.password_hash.unwrap();
    assert_eq!(validate_hash("NewPass1", &digest), Ok(true));
    let only_email =
        update_user_email_or_password(&u, update(Some("x@example.com"), None, None), 4).unwrap();
    assert!(only_email.password_hash.is_none());
}
