use vstd::prelude::*;

verus! {

/// The error taxonomy of the service boundary.  Every internal failure is
/// mapped to one of these kinds before it crosses into the external
/// interface; nothing internal (driver errors, stack traces) is surfaced.
#[derive(Clone, Copy, Debug, PartialEq, Eq, Structural)]
pub enum ServiceError {
    /// Caller input was malformed; recoverable, reported as a 4xx-equivalent.
    ValidationFailed,
    /// Registration targeted an email that already has an account.
    AccountExists,
    /// Login failed.  Both "no such account" and "wrong password" collapse
    /// to this one kind so no user-existence oracle exists.
    InvalidCredentials,
    /// The target entity is absent.
    NotFound,
    /// The password hasher failed; internal server-side fault.
    HashingFailed,
    /// The token signer failed; internal server-side fault.
    TokenIssuanceFailed,
    /// The store rejected a write; internal server-side fault.
    PersistenceFailed,
}

/// The wire shape of an error: a stable code and a generic message.
#[derive(Debug)]
pub struct ErrorResponse {
    pub error: String,
    pub message: String,
}

/// The stable error code each kind is reported under.
pub open spec fn spec_error_code(e: ServiceError) -> Seq<char> {
    match e {
        ServiceError::ValidationFailed => "validation_error"@,
        ServiceError::AccountExists => "user_exists"@,
        ServiceError::InvalidCredentials => "invalid_credentials"@,
        ServiceError::NotFound => "not_found"@,
        ServiceError::HashingFailed => "hash_error"@,
        ServiceError::TokenIssuanceFailed => "token_error"@,
        ServiceError::PersistenceFailed => "create_error"@,
    }
}

/// The generic, non-revealing message each kind is reported with.
pub open spec fn spec_error_message(e: ServiceError) -> Seq<char> {
    match e {
        ServiceError::ValidationFailed => "Validation failed"@,
        ServiceError::AccountExists => "User with this email already exists"@,
        ServiceError::InvalidCredentials => "Invalid email or password"@,
        ServiceError::NotFound => "User not found"@,
        ServiceError::HashingFailed => "Failed to hash password"@,
        ServiceError::TokenIssuanceFailed => "Failed to generate token"@,
        ServiceError::PersistenceFailed => "Failed to create user"@,
    }
}

/// The HTTP-equivalent status each kind maps to at the boundary.
pub open spec fn spec_status_code(e: ServiceError) -> u16 {
    match e {
        ServiceError::ValidationFailed => 400,
        ServiceError::AccountExists => 409,
        ServiceError::InvalidCredentials => 401,
        ServiceError::NotFound => 404,
        ServiceError::HashingFailed => 500,
        ServiceError::TokenIssuanceFailed => 500,
        ServiceError::PersistenceFailed => 500,
    }
}

impl ServiceError {
    /// The wire form of this error: its stable code and a generic message.
    pub fn to_response(&self) -> (r: ErrorResponse)
        ensures
            r.error@ == spec_error_code(*self),
            r.message@ == spec_error_message(*self),
    {
        match self {
            ServiceError::ValidationFailed => ErrorResponse {
                error: "validation_error".to_owned(),
                message: "Validation failed".to_owned(),
            },
            ServiceError::AccountExists => ErrorResponse {
                error: "user_exists".to_owned(),
                message: "User with this email already exists".to_owned(),
            },
            ServiceError::InvalidCredentials => ErrorResponse {
                error: "invalid_credentials".to_owned(),
                message: "Invalid email or password".to_owned(),
            },
            ServiceError::NotFound => ErrorResponse {
                error: "not_found".to_owned(),
                message: "User not found".to_owned(),
            },
            ServiceError::HashingFailed => ErrorResponse {
                error: "hash_error".to_owned(),
                message: "Failed to hash password".to_owned(),
            },
            ServiceError::TokenIssuanceFailed => ErrorResponse {
                error: "token_error".to_owned(),
                message: "Failed to generate token".to_owned(),
            },
            ServiceError::PersistenceFailed => ErrorResponse {
                error: "create_error".to_owned(),
                message: "Failed to create user".to_owned(),
            },
        }
    }

    /// The HTTP-equivalent status code for this error.
    pub fn status_code(&self) -> (c: u16)
        ensures
            c == spec_status_code(*self),
    {
        match self {
            ServiceError::ValidationFailed => 400,
            ServiceError::AccountExists => 409,
            ServiceError::InvalidCredentials => 401,
            ServiceError::NotFound => 404,
            ServiceError::HashingFailed => 500,
            ServiceError::TokenIssuanceFailed => 500,
            ServiceError::PersistenceFailed => 500,
        }
    }
}

} // verus!
