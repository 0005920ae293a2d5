use cursor_backend::middleware::auth_middleware;
use cursor_backend::models::AuthUser;
use cursor_backend::token::{generate_jwt, verify_token, TOKEN_TTL_SECS};

const SECRET: &str = "middleware-secret";
const NOW: u64 = 1_700_000_000;

fn account() -> AuthUser {
    AuthUser {
        id: 42,
        name: "Ada".to_string(),
        email: "ada@x.com".to_string(),
        password_hash: "irrelevant".to_string(),
        created_at: NOW,
        updated_at: NOW,
    }
}

#[test]
fn test_token_round_trip() {
    let token = generate_jwt(&account(), SECRET, NOW);
    let claims = verify_token(&token, SECRET, NOW + 1).expect("token verifies");
    assert_eq!(claims.sub, 42);
    assert_eq!(claims.email, "ada@x.com");
    assert_eq!(claims.iat, NOW);
    assert_eq!(claims.exp, NOW + TOKEN_TTL_SECS);
}

#[test]
fn test_token_expiry_boundary() {
    let token = generate_jwt(&account(), SECRET, NOW);
    let expiry: u64 = NOW + TOKEN_TTL_SECS;
    assert!(verify_token(&token, SECRET, expiry - 1).is_some());
    assert!(verify_token(&token, SECRET, expiry).is_none());
    assert!(verify_token(&token, SECRET, expiry + 1).is_none());
}

#[test]
fn test_token_deterministic_for_same_claims() {
    let t1 = generate_jwt(&account(), SECRET, NOW);
    let t2 = generate_jwt(&account(), SECRET, NOW);
    assert_eq!(t1, t2);
}

#[test]
fn test_token_rejected_under_other_secret() {
    let token = generate_jwt(&account(), SECRET, NOW);
    assert!(verify_token(&token, "another-secret", NOW + 1).is_none());
}

#[test]
fn test_token_garbage_rejected() {
    assert!(verify_token("not-a-token", SECRET, NOW).is_none());
    assert!(verify_token("also.not.atoken", SECRET, NOW).is_none());
    assert!(verify_token("", SECRET, NOW).is_none());
}

#[test]
fn test_middleware_accepts_valid_bearer() {
    let token = generate_jwt(&account(), SECRET, NOW);
    let header = format!("Bearer {}", token);
    let claims = auth_middleware(Some(&header), SECRET, NOW + 1).expect("middleware passes");
    assert_eq!(claims.sub, 42);
    assert_eq!(claims.email, "ada@x.com");
}

#[test]
fn test_middleware_rejects_missing_header() {
    assert!(matches!(auth_middleware(None, SECRET, NOW), Err(401)));
}

#[test]
fn test_middleware_rejects_other_scheme() {
    let header = "Basic QWxhZGRpbjpvcGVuc2VzYW1l".to_string();
    assert!(matches!(auth_middleware(Some(&header), SECRET, NOW), Err(401)));
    let lowercase = "bearer sometoken".to_string();
    assert!(matches!(auth_middleware(Some(&lowercase), SECRET, NOW), Err(401)));
}

#[test]
fn test_middleware_rejects_expired_token() {
    let token = generate_jwt(&account(), SECRET, NOW);
    let header = format!("Bearer {}", token);
    assert!(matches!(auth_middleware(Some(&header), SECRET, NOW + TOKEN_TTL_SECS), Err(401)));
}
