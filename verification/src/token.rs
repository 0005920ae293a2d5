use vstd::prelude::*;

use jsonwebtoken::{decode, encode, Algorithm, DecodingKey, EncodingKey, Header, Validation};
use serde_json::Value;

use crate::models::{AuthUser, Claims};

verus! {

/// How long an issued token stays valid, in seconds: 24 hours.
pub const TOKEN_TTL_SECS: u64 = 86400;

/// The signed, encoded token that `jsonwebtoken::encode` produces, under the
/// default HS256 header, for the session claims {sub, email, iat, exp} and
/// the given signing secret.  The encoding is deterministic: the claims are
/// serialized with sorted keys and HMAC carries no nonce, so the token is a
/// function of these five values alone.
pub uninterp spec fn token_of(
    sub: u128,
    email: Seq<char>,
    iat: u64,
    exp: u64,
    secret: Seq<char>,
) -> Seq<char>;

/// What `jsonwebtoken::decode`, restricted to HS256 with expiry validation
/// turned off, makes of a token string under a secret: true exactly when
/// the signature verifies and the decoded payload yields these four claim
/// fields — the subject as the decimal string of a 128-bit integer, the
/// email as a string, the two instants as integers.  Decoding recomputes
/// the HMAC over whatever header and payload bytes the token carries, so
/// tokens other than the canonical encoding — say with extra payload
/// fields — can satisfy this too; it is deterministic in the token and the
/// secret, so this is a function of the six values alone, and at most one
/// claims tuple satisfies it for a given token and secret.
pub uninterp spec fn token_carries(
    token: Seq<char>,
    sub: u128,
    email: Seq<char>,
    iat: u64,
    exp: u64,
    secret: Seq<char>,
) -> bool;

/// Relies on `jsonwebtoken::encode` with the default HS256 header and a
/// secret-based key.  For this algorithm the call cannot fail: the key
/// family matches the header, HMAC accepts a secret of any length and signs
/// infallibly, and serializing the claims object cannot fail — so the
/// wrapper returns the token outright.  Decoding the result under the same
/// secret yields these very claims, which the second clause records.
#[verifier::external_body]
fn encode_claims(claims: &Claims, secret: &str) -> (r: String)
    ensures
        r@ == token_of(claims.sub, claims.email@, claims.iat, claims.exp, secret@),
        token_carries(r@, claims.sub, claims.email@, claims.iat, claims.exp, secret@),
{
    let mut m = serde_json::Map::new();
    m.insert("sub".to_string(), Value::String(claims.sub.to_string()));
    m.insert("email".to_string(), Value::String(claims.email.clone()));
    m.insert("iat".to_string(), Value::from(claims.iat));
    m.insert("exp".to_string(), Value::from(claims.exp));
    let key = EncodingKey::from_secret(secret.as_bytes());
    encode(&Header::default(), &Value::Object(m), &key).unwrap()
}

/// Relies on `jsonwebtoken::decode` restricted to HS256, with expiry
/// validation turned off (the caller checks expiry itself): it succeeds
/// exactly on the tokens whose HS256 signature verifies under this secret
/// and whose payload carries the four claim fields — the relation that
/// `token_carries` names — and it is deterministic, so the claims returned
/// are the only ones the token carries.
#[verifier::external_body]
fn decode_claims(token: &str, secret: &str) -> (r: Result<Claims, ()>)
    ensures
        r matches Ok(c) ==> token_carries(token@, c.sub, c.email@, c.iat, c.exp, secret@),
        r matches Ok(c) ==> forall|sub: u128, email: Seq<char>, iat: u64, exp: u64|
            token_carries(token@, sub, email, iat, exp, secret@) ==> c.sub == sub
                && c.email@ == email && c.iat == iat && c.exp == exp,
        r is Err ==> forall|sub: u128, email: Seq<char>, iat: u64, exp: u64|
            !token_carries(token@, sub, email, iat, exp, secret@),
{
    let mut v = Validation::new(Algorithm::HS256);
    v.validate_exp = false;
    let k = DecodingKey::from_secret(secret.as_bytes());
    let d = decode::<Value>(token, &k, &v).map_err(|_| ())?.claims;
    let sub: u128 = d["sub"].as_str().and_then(|s| s.parse().ok()).ok_or(())?;
    let email = d["email"].as_str().ok_or(())?.to_string();
    let iat: u64 = d["iat"].as_u64().ok_or(())?;
    let exp: u64 = d["exp"].as_u64().ok_or(())?;
    Ok(Claims { sub, email, exp, iat })
}

/// Serializes session claims for the account and signs them with the
/// server-held secret.  The claims carry the account id as subject, its
/// email, the issue instant `now` and an expiry a fixed TTL later.  With
/// the HMAC signer issuance cannot fail, so the token is returned outright:
/// deterministic given identical claims and secret, and decodable back to
/// these claims.
pub fn generate_jwt(user: &AuthUser, secret: &str, now: u64) -> (t: String)
    requires
        now + TOKEN_TTL_SECS <= u64::MAX,
    ensures
        t@ == token_of(user.id, user.email@, now, (now + TOKEN_TTL_SECS) as u64, secret@),
        token_carries(t@, user.id, user.email@, now, (now + TOKEN_TTL_SECS) as u64, secret@),
{
    let claims = Claims {
        sub: user.id,
        email: user.email.clone(),
        exp: now + TOKEN_TTL_SECS,
        iat: now,
    };
    encode_claims(&claims, secret)
}

/// Decodes and checks a bearer token: the signature must verify against the
/// secret and the claims must not yet have expired at `now`.  A token whose
/// expiry equals `now` is already expired.  Any failure collapses to `None`:
/// the caller learns nothing but "unauthenticated".
pub fn verify_token(token: &str, secret: &str, now: u64) -> (r: Option<Claims>)
    ensures
        r matches Some(c) ==> token_carries(token@, c.sub, c.email@, c.iat, c.exp, secret@)
            && now < c.exp,
        forall|sub: u128, email: Seq<char>, iat: u64, exp: u64|
            token_carries(token@, sub, email, iat, exp, secret@) ==> {
                if now < exp {
                    &&& r matches Some(c)
                    &&& c.sub == sub
                    &&& c.email@ == email
                    &&& c.iat == iat
                    &&& c.exp == exp
                } else {
                    r is None
                }
            },
{
    match decode_claims(token, secret) {
        Ok(c) => {
            if now < c.exp {
                Some(c)
            } else {
                None
            }
        },
        Err(_) => None,
    }
}

} // verus!
