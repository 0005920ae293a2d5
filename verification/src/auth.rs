use vstd::prelude::*;

use crate::credential_store::CredentialStore;
use crate::errors::ServiceError;
use crate::ids::fresh_id;
use crate::models::{AuthResponse, AuthUser, AuthUserResponse, LoginRequest, NewAuthUser,
    RegisterRequest};
use crate::password::{bcrypt_accepts, hash_password, verify_password};
use crate::token::{generate_jwt, token_carries, token_of, TOKEN_TTL_SECS};

verus! {

/// How a failed registration is reported.  A token signer that failed
/// after the account row was written would leave a usable, un-tokened
/// account behind; `account_persisted` reports that case so a caller can
/// redirect to login instead of registering again.  The HMAC signer used
/// here cannot fail, so every error this implementation returns carries
/// `false`, but the shape keeps the two phases distinct for its callers.
#[derive(Debug)]
pub struct RegisterError {
    pub kind: ServiceError,
    pub account_persisted: bool,
}

/// A successful registration appended exactly one account row carrying the
/// registered name and email, a hash that accepts the registered password
/// (the plaintext itself is never stored), and both timestamps set to the
/// registration instant.
pub open spec fn registered(
    old_rows: Seq<AuthUser>,
    new_rows: Seq<AuthUser>,
    payload: RegisterRequest,
    now: u64,
) -> bool {
    &&& new_rows.len() == old_rows.len() + 1
    &&& new_rows == old_rows.push(new_rows.last())
    &&& new_rows.last().name@ == payload.name@
    &&& new_rows.last().email@ == payload.email@
    &&& bcrypt_accepts(payload.password@, new_rows.last().password_hash@)
    &&& new_rows.last().created_at == now
    &&& new_rows.last().updated_at == now
}

/// Why a login attempt is turned away with `InvalidCredentials`: no account
/// under the email, or a stored hash that does not accept the password.
/// The two causes produce one and the same observable error.
pub open spec fn credentials_rejected(
    store: CredentialStore,
    email: Seq<char>,
    password: Seq<char>,
) -> bool {
    ||| !store.contains_email(email)
    ||| !bcrypt_accepts(password, store.account_for_email(email).password_hash@)
}

/// Registers a new account: rejects an email that already has one, hashes
/// the password, inserts the account row, and issues a session token for
/// it.  Input is pre-validated for shape (see `RegisterRequest::validate`).
/// Failure comes only from a taken email, the hasher, or an id clash in
/// the store; each leaves the store unchanged.
pub fn register(
    store: &mut CredentialStore,
    payload: RegisterRequest,
    secret: &str,
    now: u64,
) -> (r: Result<AuthResponse, RegisterError>)
    requires
        old(store).wf(),
        now + TOKEN_TTL_SECS <= u64::MAX,
    ensures
        final(store).wf(),
        (r matches Err(e) && e.kind == ServiceError::AccountExists) <==> old(
            store,
        ).contains_email(payload.email@),
        r matches Err(e) ==> e.kind == ServiceError::AccountExists || e.kind
            == ServiceError::HashingFailed || e.kind == ServiceError::PersistenceFailed,
        r matches Err(e) ==> !e.account_persisted && *final(store) == *old(store),
        r matches Ok(resp) ==> registered(old(store).rows(), final(store).rows(), payload, now)
            && resp.user.id == final(store).rows().last().id && resp.user.name@ == payload.name@
            && resp.user.email@ == payload.email@ && resp.user.created_at == now && resp.token@
            == token_of(
            resp.user.id,
            payload.email@,
            now,
            (now + TOKEN_TTL_SECS) as u64,
            secret@,
        ) && token_carries(
            resp.token@,
            resp.user.id,
            payload.email@,
            now,
            (now + TOKEN_TTL_SECS) as u64,
            secret@,
        ),
{
    if store.get_user_by_email(payload.email.as_str()).is_some() {
        return Err(RegisterError { kind: ServiceError::AccountExists, account_persisted: false });
    }
    let password_hash = match hash_password(payload.password.as_str()) {
        Ok(h) => h,
        Err(_) => {
            return Err(
                RegisterError { kind: ServiceError::HashingFailed, account_persisted: false },
            );
        },
    };
    let id = fresh_id();
    let user = NewAuthUser { id, name: payload.name, email: payload.email, password_hash };
    let account = match store.create_user(user, now) {
        Ok(a) => a,
        Err(e) => {
            return Err(RegisterError { kind: e, account_persisted: false });
        },
    };
    let token = generate_jwt(&account, secret, now);
    Ok(
        AuthResponse {
            token,
            user: AuthUserResponse {
                id: account.id,
                name: account.name,
                email: account.email,
                created_at: account.created_at,
            },
        },
    )
}

/// Logs an account in: looks the email up, verifies the password against
/// the stored hash, and issues a session token.  An unknown email and a
/// wrong password are answered with the very same `InvalidCredentials`
/// value, so the caller cannot enumerate accounts; whenever the credential
/// check passes, the login succeeds and returns the token.
pub fn login(store: &CredentialStore, payload: LoginRequest, secret: &str, now: u64) -> (r: Result<
    AuthResponse,
    ServiceError,
>)
    requires
        store.wf(),
        now + TOKEN_TTL_SECS <= u64::MAX,
    ensures
        r is Err <==> credentials_rejected(*store, payload.email@, payload.password@),
        r is Err ==> r == Err::<AuthResponse, ServiceError>(ServiceError::InvalidCredentials),
        r matches Ok(resp) ==> resp.user.id == store.account_for_email(payload.email@).id
            && resp.user.name@ == store.account_for_email(payload.email@).name@ && resp.user.email@
            == payload.email@ && resp.user.created_at == store.account_for_email(
            payload.email@,
        ).created_at && resp.token@ == token_of(
            resp.user.id,
            payload.email@,
            now,
            (now + TOKEN_TTL_SECS) as u64,
            secret@,
        ) && token_carries(
            resp.token@,
            resp.user.id,
            payload.email@,
            now,
            (now + TOKEN_TTL_SECS) as u64,
            secret@,
        ),
{
    let account = match store.get_user_by_email(payload.email.as_str()) {
        Some(a) => a,
        None => {
            return Err(ServiceError::InvalidCredentials);
        },
    };
    if !verify_password(payload.password.as_str(), account.password_hash.as_str()) {
        return Err(ServiceError::InvalidCredentials);
    }
    let token = generate_jwt(&account, secret, now);
    Ok(
        AuthResponse {
            token,
            user: AuthUserResponse {
                id: account.id,
                name: account.name,
                email: account.email,
                created_at: account.created_at,
            },
        },
    )
}

} // verus!
