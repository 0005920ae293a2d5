use cursor_backend::auth::{login, register};
use cursor_backend::credential_store::CredentialStore;
use cursor_backend::errors::ServiceError;
use cursor_backend::models::{LoginRequest, RegisterRequest};
use cursor_backend::token::verify_token;

const SECRET: &str = "test-secret";
const NOW: u64 = 1_700_000_000;

fn register_request(name: &str, email: &str, password: &str) -> RegisterRequest {
    RegisterRequest {
        name: name.to_string(),
        email: email.to_string(),
        password: password.to_string(),
    }
}

#[test]
fn test_user_registration() {
    let mut store = CredentialStore::new();
    let payload = register_request("Test User", "test@example.com", "password123");
    assert!(payload.validate().is_ok());
    let response = register(&mut store, payload, SECRET, NOW).expect("registration succeeds");
    assert_eq!(response.user.name, "Test User");
    assert_eq!(response.user.email, "test@example.com");
    assert_eq!(response.user.created_at, NOW);
    assert!(!response.token.is_empty());
}

#[test]
fn test_register_then_login_same_account() {
    let mut store = CredentialStore::new();
    let payload = register_request("Ada", "ada@x.com", "password123");
    let registered = register(&mut store, payload, SECRET, NOW).expect("registration succeeds");

    let attempt = LoginRequest {
        email: "ada@x.com".to_string(),
        password: "password123".to_string(),
    };
    let logged_in = login(&store, attempt, SECRET, NOW + 10).expect("login succeeds");
    assert_eq!(logged_in.user.id, registered.user.id);
    assert_eq!(logged_in.user.email, "ada@x.com");

    let claims = verify_token(&logged_in.token, SECRET, NOW + 20).expect("token verifies");
    assert_eq!(claims.sub, registered.user.id);
    assert_eq!(claims.email, "ada@x.com");
}

#[test]
fn test_register_duplicate_email_conflicts() {
    let mut store = CredentialStore::new();
    let first = register_request("Ada", "ada@x.com", "password123");
    register(&mut store, first, SECRET, NOW).expect("first registration succeeds");

    let second = register_request("Impostor", "ada@x.com", "different456");
    let err = register(&mut store, second, SECRET, NOW).expect_err("second registration fails");
    assert_eq!(err.kind, ServiceError::AccountExists);
    assert!(!err.account_persisted);
    assert_eq!(err.kind.status_code(), 409);

    let attempt = LoginRequest {
        email: "ada@x.com".to_string(),
        password: "password123".to_string(),
    };
    login(&store, attempt, SECRET, NOW).expect("first credentials still log in");
}

#[test]
fn test_login_wrong_password_and_unknown_email_look_identical() {
    let mut store = CredentialStore::new();
    let payload = register_request("Ada", "ada@x.com", "password123");
    register(&mut store, payload, SECRET, NOW).expect("registration succeeds");

    let wrong_password = LoginRequest {
        email: "ada@x.com".to_string(),
        password: "password124".to_string(),
    };
    let e1 = login(&store, wrong_password, SECRET, NOW).expect_err("wrong password fails");

    let unknown_email = LoginRequest {
        email: "nobody@x.com".to_string(),
        password: "password123".to_string(),
    };
    let e2 = login(&store, unknown_email, SECRET, NOW).expect_err("unknown email fails");

    assert_eq!(e1, ServiceError::InvalidCredentials);
    assert_eq!(e2, ServiceError::InvalidCredentials);
    assert_eq!(e1, e2);
    let r1 = e1.to_response();
    let r2 = e2.to_response();
    assert_eq!(r1.error, r2.error);
    assert_eq!(r1.message, r2.message);
    assert_eq!(e1.status_code(), 401);
    assert_eq!(e2.status_code(), 401);
}

#[test]
fn test_register_rejects_short_password() {
    let payload = register_request("Ada", "ada@x.com", "short");
    let err = payload.validate().expect_err("five characters are too few");
    assert_eq!(err, ServiceError::ValidationFailed);
    assert_eq!(err.status_code(), 400);

    let ok = register_request("Ada", "ada@x.com", "longer");
    assert!(ok.validate().is_ok());
}
