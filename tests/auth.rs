use taskboard::error::AuthError;
use taskboard::guards::{JwtAuth, Rejection, RoleAuth};
use taskboard::jwt::{generate_jwt, issue_token, verify_jwt, verify_token, AuthConfig, Claims, TOKEN_LIFETIME_SECS};
use taskboard::password::{hash_password, hash_password_with_salt, verify_password};

fn config(secret: &str) -> AuthConfig {
    AuthConfig::new(Some(secret.to_string())).unwrap()
}

const NOW: u64 = 1_700_000_000;

#[test]
fn hash_then_verify_accepts_same_password() {
    let h = hash_password("pw123").unwrap();
    assert!(h.starts_with("$argon2"));
    assert_eq!(verify_password("pw123", &h), Ok(true));
}

#[test]
fn hash_rejects_other_password() {
    let h = hash_password("pw123").unwrap();
    assert_eq!(verify_password("pw124", &h), Ok(false));
}

#[test]
fn two_hashes_of_one_password_differ_and_both_verify() {
    let a = hash_password("secret").unwrap();
    let b = hash_password("secret").unwrap();
    assert_ne!(a, b);
    assert_eq!(verify_password("secret", &a), Ok(true));
    assert_eq!(verify_password("secret", &b), Ok(true));
}

#[test]
fn malformed_hash_is_an_error() {
    assert_eq!(verify_password("pw", "not a hash"), Err(AuthError::MalformedHash));
    assert_eq!(verify_password("pw", ""), Err(AuthError::MalformedHash));
}

#[test]
fn missing_secret_is_configuration_error() {
    assert_eq!(AuthConfig::new(None).unwrap_err(), AuthError::Configuration);
}

#[test]
fn issue_then_verify_round_trip() {
    let c = config("alpha");
    let t = issue_token(&c, "42", "user", NOW).unwrap();
    assert_eq!(t.split('.').count(), 3);
    let claims = verify_token(&c, &t, NOW + 10).unwrap();
    assert_eq!(claims.sub, "42");
    assert_eq!(claims.role, "user");
    assert_eq!(claims.iat, NOW);
    assert_eq!(claims.exp, NOW + 604800);
    assert_eq!(claims.exp - claims.iat, TOKEN_LIFETIME_SECS);
}

#[test]
fn token_valid_until_just_before_expiry() {
    let c = config("alpha");
    let t = issue_token(&c, "7", "admin", NOW).unwrap();
    assert!(verify_token(&c, &t, NOW + TOKEN_LIFETIME_SECS - 1).is_ok());
    assert_eq!(verify_token(&c, &t, NOW + TOKEN_LIFETIME_SECS).unwrap_err(), AuthError::InvalidToken);
}

#[test]
fn expired_token_is_invalid() {
    let c = config("alpha");
    let t = issue_token(&c, "7", "user", NOW).unwrap();
    assert_eq!(verify_token(&c, &t, NOW + TOKEN_LIFETIME_SECS + 3600).unwrap_err(), AuthError::InvalidToken);
}

#[test]
fn token_from_other_secret_is_invalid() {
    let a = config("secret-a");
    let b = config("secret-b");
    let t = issue_token(&a, "1", "user", NOW).unwrap();
    assert_eq!(verify_token(&b, &t, NOW + 1).unwrap_err(), AuthError::InvalidToken);
}

#[test]
fn tampered_or_garbage_token_is_invalid() {
    let c = config("alpha");
    let t = issue_token(&c, "1", "user", NOW).unwrap();
    let mut bytes = t.into_bytes();
    let last = bytes.len() - 2;
    bytes[last] = if bytes[last] == b'A' { b'B' } else { b'A' };
    let tampered = String::from_utf8(bytes).unwrap();
    assert!(verify_token(&c, &tampered, NOW + 1).is_err());
    assert!(verify_token(&c, "abc", NOW + 1).is_err());
    assert!(verify_token(&c, "", NOW + 1).is_err());
}

#[test]
fn issue_fails_when_expiry_overflows() {
    let c = config("alpha");
    assert_eq!(issue_token(&c, "1", "user", u64::MAX - 10).unwrap_err(), AuthError::Clock);
    assert!(issue_token(&c, "1", "user", u64::MAX - TOKEN_LIFETIME_SECS).is_ok());
}

#[test]
fn generate_then_verify_at_current_time() {
    let c = config("alpha");
    let t = generate_jwt(&c, "5", "user").unwrap();
    let claims = verify_jwt(&c, &t).unwrap();
    assert_eq!(claims.sub, "5");
    assert_eq!(claims.role, "user");
    assert_eq!(claims.exp - claims.iat, TOKEN_LIFETIME_SECS);
}

#[test]
fn extractor_without_cookie_is_unauthorized() {
    let c = config("alpha");
    assert_eq!(JwtAuth::from_cookie_at(&c, None, NOW).unwrap_err(), Rejection::Unauthorized);
    assert_eq!(JwtAuth::from_cookie(&c, None).unwrap_err(), Rejection::Unauthorized);
}

#[test]
fn extractor_with_bad_token_is_unauthorized() {
    let c = config("alpha");
    assert_eq!(JwtAuth::from_cookie_at(&c, Some("x.y.z"), NOW).unwrap_err(), Rejection::Unauthorized);
    assert_eq!(Rejection::Unauthorized.status().code(), 401);
}

#[test]
fn extractor_with_valid_token_yields_claims() {
    let c = config("alpha");
    let t = issue_token(&c, "9", "user", NOW).unwrap();
    let auth = JwtAuth::from_cookie_at(&c, Some(&t), NOW + 5).unwrap();
    assert_eq!(auth.claims.sub, "9");
    assert_eq!(auth.claims.role, "user");
}

#[test]
fn role_authorizer_forbids_user_role() {
    let c = config("alpha");
    let t = issue_token(&c, "3", "user", NOW).unwrap();
    assert_eq!(RoleAuth::from_cookie_at(&c, Some(&t), NOW).unwrap_err(), Rejection::Forbidden);
    assert_eq!(Rejection::Forbidden.status().code(), 403);
}

#[test]
fn role_authorizer_admits_admin_role() {
    let c = config("alpha");
    let t = issue_token(&c, "3", "admin", NOW).unwrap();
    let ra = RoleAuth::from_cookie_at(&c, Some(&t), NOW).unwrap();
    assert_eq!(ra.claims().role, "admin");
    assert_eq!(ra.claims().sub, "3");
}

#[test]
fn role_authorizer_passes_rejection_through() {
    let c = config("alpha");
    assert_eq!(RoleAuth::from_cookie_at(&c, None, NOW).unwrap_err(), Rejection::Unauthorized);
    let claims = Claims { sub: "1".to_string(), exp: 10, iat: 0, role: "administrator".to_string() };
    assert_eq!(RoleAuth::from_identity(Ok(JwtAuth { claims })).unwrap_err(), Rejection::Forbidden);
    assert_eq!(RoleAuth::from_identity(Err(Rejection::Unauthorized)).unwrap_err(), Rejection::Unauthorized);
}

#[test]
fn hash_with_given_salt_is_deterministic_and_verifies() {
    let salt = [7u8; 16];
    let a = hash_password_with_salt("pw123", &salt).unwrap();
    let b = hash_password_with_salt("pw123", &salt).unwrap();
    assert_eq!(a, b);
    assert_eq!(verify_password("pw123", &a), Ok(true));
    assert_eq!(verify_password("pw124", &a), Ok(false));
}

#[test]
fn hash_with_wrong_salt_length_is_hashing_error() {
    assert_eq!(hash_password_with_salt("pw", &[1u8; 2]), Err(AuthError::Hashing));
    assert_eq!(hash_password_with_salt("pw", &[1u8; 15]), Err(AuthError::Hashing));
    assert_eq!(hash_password_with_salt("pw", &[]), Err(AuthError::Hashing));
}

#[test]
fn same_claims_secret_and_time_give_same_token() {
    let c = config("alpha");
    let a = issue_token(&c, "42", "user", NOW).unwrap();
    let b = issue_token(&c, "42", "user", NOW).unwrap();
    assert_eq!(a, b);
    assert_ne!(a, issue_token(&c, "42", "user", NOW + 1).unwrap());
    assert_ne!(a, issue_token(&config("beta"), "42", "user", NOW).unwrap());
}
