use vstd::prelude::*;

use crate::auth::{credentials_rejected, registered};
use crate::credential_store::CredentialStore;
use crate::models::{AuthUser, RegisterRequest, UpdateUserRequest, UserRecord};
use crate::password::bcrypt_accepts;
use crate::token::token_of;
use crate::user_store::{merged_record, UserStore};

verus! {

/// After a successful registration, the new account is found under its
/// email and its stored hash accepts the registered password, so a login
/// with the same email and password passes the credential check and — by
/// `login`'s contract — succeeds outright, returning a token whose subject
/// is this very account's id.
pub proof fn lemma_register_then_login(
    before: CredentialStore,
    after: CredentialStore,
    payload: RegisterRequest,
    now: u64,
)
    requires
        before.wf(),
        after.wf(),
        registered(before.rows(), after.rows(), payload, now),
    ensures
        after.contains_email(payload.email@),
        after.account_for_email(payload.email@) == after.rows().last(),
        bcrypt_accepts(
            payload.password@,
            after.account_for_email(payload.email@).password_hash@,
        ),
        !credentials_rejected(after, payload.email@, payload.password@),
{
    let n = after.rows().len() - 1;
    assert(after.rows()[n].email@ == payload.email@);
    let k = choose|k: int|
        0 <= k < after.rows().len() && after.rows()[k].email@ == payload.email@;
    if k != n {
        assert(after.rows()[k].email@ != after.rows()[n].email@);
    }
}

/// Registering a second time under an email that a successful registration
/// already stored always finds that email taken, so — by `register`'s
/// contract — the second attempt is answered `AccountExists` and the store
/// keeps exactly the one account it had: no silent duplicate is written.
pub proof fn lemma_duplicate_registration_conflicts(
    before: CredentialStore,
    after: CredentialStore,
    payload: RegisterRequest,
    other: RegisterRequest,
    now: u64,
)
    requires
        registered(before.rows(), after.rows(), payload, now),
        other.email@ == payload.email@,
    ensures
        after.contains_email(other.email@),
{
    let n = after.rows().len() - 1;
    assert(after.rows()[n].email@ == other.email@);
}

/// A login against an email without an account and a login against a
/// stored account whose hash rejects the password both make the credential
/// check fail, so — by `login`'s contract — both are answered by one and
/// the same `InvalidCredentials` value: nothing observable separates the
/// two causes.
pub proof fn lemma_invalid_credentials_indistinguishable(
    store: CredentialStore,
    unknown_email: Seq<char>,
    any_password: Seq<char>,
    known_email: Seq<char>,
    wrong_password: Seq<char>,
)
    requires
        store.wf(),
        !store.contains_email(unknown_email),
        store.contains_email(known_email),
        !bcrypt_accepts(wrong_password, store.account_for_email(known_email).password_hash@),
    ensures
        credentials_rejected(store, unknown_email, any_password),
        credentials_rejected(store, known_email, wrong_password),
{
}

/// A partial update keeps every scalar field whose request slot is absent,
/// overwrites every field whose slot is present, never touches the id or
/// the creation instant, and stamps the update instant.
pub proof fn lemma_update_preserves_omitted_fields(
    rec: UserRecord,
    req: UpdateUserRequest,
    now: u64,
)
    ensures
        merged_record(rec, req, now).id == rec.id,
        merged_record(rec, req, now).created_at == rec.created_at,
        merged_record(rec, req, now).updated_at == now,
        req.name is None ==> merged_record(rec, req, now).name == rec.name,
        req.username is None ==> merged_record(rec, req, now).username == rec.username,
        req.email is None ==> merged_record(rec, req, now).email == rec.email,
        req.phone is None ==> merged_record(rec, req, now).phone == rec.phone,
        req.website is None ==> merged_record(rec, req, now).website == rec.website,
        req.name matches Some(n) ==> merged_record(rec, req, now).name == n,
        req.username matches Some(n) ==> merged_record(rec, req, now).username == n,
        req.email matches Some(n) ==> merged_record(rec, req, now).email == n,
        req.phone matches Some(p) ==> merged_record(rec, req, now).phone == Some(p),
        req.website matches Some(w) ==> merged_record(rec, req, now).website == Some(w),
{
}

/// Issuing a token twice for the same subject, email, instants and secret
/// returns one and the same string: the encoding carries no nonce, so the
/// token is a function of the claims and the secret alone.
pub proof fn lemma_token_issuance_deterministic(
    t1: Seq<char>,
    t2: Seq<char>,
    sub: u128,
    email: Seq<char>,
    iat: u64,
    exp: u64,
    secret: Seq<char>,
)
    requires
        t1 == token_of(sub, email, iat, exp, secret),
        t2 == token_of(sub, email, iat, exp, secret),
    ensures
        t1 == t2,
{
}

/// After a delete removed a profile row, no row under that id remains, so
/// — by the contracts of `get_user_by_id` and `delete_user` — a following
/// fetch of the id is answered `NotFound`, and so is a second delete:
/// "already removed" is never reported as success.
pub proof fn lemma_delete_then_get_not_found(before: UserStore, after: UserStore, user_id: u128)
    requires
        before.wf(),
        before.has_user(user_id),
        after.user_rows() == before.user_rows().remove(before.user_idx(user_id)),
    ensures
        !after.has_user(user_id),
{
    let idx = before.user_idx(user_id);
    assert(0 <= idx < before.user_rows().len() && before.user_rows()[idx].id == user_id);
    assert forall|i: int| 0 <= i < after.user_rows().len() implies after.user_rows()[i].id
        != user_id by {
        let oi = if i < idx {
            i
        } else {
            i + 1
        };
        assert(after.user_rows()[i] == before.user_rows()[oi]);
        if before.user_rows()[oi].id == user_id {
            if oi < idx {
                assert(before.user_rows()[oi].id != before.user_rows()[idx].id);
            } else {
                assert(before.user_rows()[idx].id != before.user_rows()[oi].id);
            }
        }
    }
}

} // verus!
