use cursor_backend::errors::ServiceError;
use cursor_backend::models::{Claims, CreateAddressRequest, CreateGeoRequest, CreateUserRequest,
    LoginRequest, RegisterRequest};
use uuid::Uuid;

#[test]
fn test_claims_creation() {
    let claims = Claims {
        sub: Uuid::new_v4().as_u128(),
        email: "test@example.com".to_string(),
        exp: 1234567890,
        iat: 1234567890,
    };

    assert_eq!(claims.email, "test@example.com");
    assert!(claims.sub.to_string().len() > 0);
}

#[test]
fn test_create_user_request_validation() {
    let user_request = CreateUserRequest {
        name: "John Doe".to_string(),
        username: "johndoe".to_string(),
        email: "john@example.com".to_string(),
        phone: Some("+1234567890".to_string()),
        website: Some("https://johndoe.com".to_string()),
        address: Some(CreateAddressRequest {
            street: "123 Main St".to_string(),
            suite: Some("Apt 4B".to_string()),
            city: "New York".to_string(),
            zipcode: "10001".to_string(),
            geo: Some(CreateGeoRequest {
                lat: 40_712_800,
                lng: -74_006_000,
            }),
        }),
        company: None,
    };

    assert_eq!(user_request.name, "John Doe");
    assert_eq!(user_request.email, "john@example.com");
    assert!(user_request.address.is_some());

    if let Some(address) = &user_request.address {
        assert_eq!(address.city, "New York");
        assert!(address.geo.is_some());

        if let Some(geo) = &address.geo {
            assert_eq!(geo.lat, 40_712_800);
            assert_eq!(geo.lng, -74_006_000);
        }
    }
}

#[test]
fn test_uuid_generation() {
    let id1 = Uuid::new_v4();
    let id2 = Uuid::new_v4();

    assert_ne!(id1, id2);
    assert_eq!(id1.to_string().len(), 36);
}

#[test]
fn test_request_validation_bounds() {
    let valid = CreateUserRequest {
        name: "Ada".to_string(),
        username: "ada".to_string(),
        email: "ada@x.com".to_string(),
        phone: None,
        website: None,
        address: None,
        company: None,
    };
    assert!(valid.validate().is_ok());

    let empty_name = CreateUserRequest { name: "".to_string(), ..valid };
    assert_eq!(empty_name.validate().expect_err("empty name"), ServiceError::ValidationFailed);

    let login = LoginRequest { email: "ada@x.com".to_string(), password: "".to_string() };
    assert_eq!(login.validate().expect_err("empty password"), ServiceError::ValidationFailed);

    let register = RegisterRequest {
        name: "Ada".to_string(),
        email: "".to_string(),
        password: "password123".to_string(),
    };
    assert_eq!(register.validate().expect_err("empty email"), ServiceError::ValidationFailed);
}

#[test]
fn test_error_response_mapping() {
    let cases: Vec<(ServiceError, &str, u16)> = vec![
        (ServiceError::ValidationFailed, "validation_error", 400),
        (ServiceError::AccountExists, "user_exists", 409),
        (ServiceError::InvalidCredentials, "invalid_credentials", 401),
        (ServiceError::NotFound, "not_found", 404),
        (ServiceError::HashingFailed, "hash_error", 500),
        (ServiceError::TokenIssuanceFailed, "token_error", 500),
        (ServiceError::PersistenceFailed, "create_error", 500),
    ];
    for (kind, code, status) in cases {
        assert_eq!(kind.to_response().error, code);
        assert_eq!(kind.status_code(), status);
        assert!(!kind.to_response().message.is_empty());
    }
}
