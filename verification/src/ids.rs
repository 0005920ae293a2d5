use vstd::prelude::*;

verus! {

/// Relies on `uuid::Uuid::new_v4`: a freshly drawn random version-4
/// identifier, returned as its 128-bit value.  Randomness promises nothing,
/// so callers must check the value against the rows they already hold.
#[verifier::external_body]
pub(crate) fn fresh_id() -> (r: u128)
{
    uuid::Uuid::new_v4().as_u128()
}

} // verus!
