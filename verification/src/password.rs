use vstd::prelude::*;

verus! {

/// What `bcrypt::verify` returns for a password and a digest, with a
/// verification error (a malformed digest included) collapsed to `false`.
/// The outcome depends only on the two arguments: the digest embeds the
/// algorithm version, cost and salt that the comparison recomputes with.
pub uninterp spec fn bcrypt_accepts(password: Seq<char>, digest: Seq<char>) -> bool;

/// Relies on `bcrypt::hash` with the crate's default cost: the salt is drawn
/// from the operating system, so nothing relates two calls, but any digest
/// the call returns is accepted together with the same password by
/// `bcrypt::verify`.
#[verifier::external_body]
pub(crate) fn hash_password(password: &str) -> (r: Result<String, ()>)
    ensures
        r matches Ok(h) ==> bcrypt_accepts(password@, h@),
{
    bcrypt::hash(password, bcrypt::DEFAULT_COST).map_err(|_| ())
}

/// Relies on `bcrypt::verify`: a constant-time comparison of the password
/// against the digest, deterministic in its two arguments; an error (for a
/// digest not in bcrypt format) is collapsed to `false`, so a mismatch and a
/// malformed digest are indistinguishable to the caller.
#[verifier::external_body]
pub(crate) fn verify_password(password: &str, digest: &str) -> (r: bool)
    ensures
        r == bcrypt_accepts(password@, digest@),
{
    bcrypt::verify(password, digest).unwrap_or(false)
}

} // verus!
