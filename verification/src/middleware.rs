use vstd::prelude::*;

use crate::models::Claims;
use crate::token::{token_carries, verify_token};

verus! {

/// The HTTP-equivalent status a rejected request is answered with.
pub const UNAUTHORIZED: u16 = 401;

/// Whether an authorization header value carries the bearer scheme: the
/// seven characters `Bearer ` followed by the token.
pub open spec fn is_bearer(h: Seq<char>) -> bool {
    &&& h.len() >= 7
    &&& h[0] == 'B'
    &&& h[1] == 'e'
    &&& h[2] == 'a'
    &&& h[3] == 'r'
    &&& h[4] == 'e'
    &&& h[5] == 'r'
    &&& h[6] == ' '
}

/// The token part of a bearer header: everything after the scheme prefix.
pub open spec fn bearer_token(h: Seq<char>) -> Seq<char> {
    h.subrange(7, h.len() as int)
}

/// Whether an authorization header is present and carries the bearer
/// scheme.
pub open spec fn has_bearer(header: Option<&String>) -> bool {
    header is Some && is_bearer(header->0@)
}

/// The token carried by a present bearer header.
pub open spec fn bearer_of(header: Option<&String>) -> Seq<char>
    recommends
        has_bearer(header),
{
    bearer_token(header->0@)
}

/// The check in front of protected routes.  A missing header, a header not
/// in the bearer scheme, a token whose signature does not verify and a
/// token already expired at `now` are all rejected the same way,
/// unauthenticated; a valid, unexpired token passes and its claims are
/// attached to the request.  Stored state is never mutated here.
pub fn auth_middleware(header: Option<&String>, secret: &str, now: u64) -> (r: Result<Claims, u16>)
    ensures
        r is Err ==> r == Err::<Claims, u16>(UNAUTHORIZED),
        header is None ==> r is Err,
        header matches Some(h) && !is_bearer(h@) ==> r is Err,
        r matches Ok(c) ==> header matches Some(h) && is_bearer(h@) && token_carries(
            bearer_token(h@),
            c.sub,
            c.email@,
            c.iat,
            c.exp,
            secret@,
        ) && now < c.exp,
        forall|sub: u128, email: Seq<char>, iat: u64, exp: u64|
            (has_bearer(header) && #[trigger] token_carries(
                bearer_of(header),
                sub,
                email,
                iat,
                exp,
                secret@,
            ) && now < exp) ==> (r matches Ok(c) && c.sub == sub && c.email@ == email && c.iat
                == iat && c.exp == exp),
        forall|sub: u128, email: Seq<char>, iat: u64, exp: u64|
            (has_bearer(header) && #[trigger] token_carries(
                bearer_of(header),
                sub,
                email,
                iat,
                exp,
                secret@,
            ) && now >= exp) ==> r is Err,
{
    let h = match header {
        Some(h) => h.as_str(),
        None => {
            return Err(UNAUTHORIZED);
        },
    };
    let n = h.unicode_len();
    if n < 7 {
        return Err(UNAUTHORIZED);
    }
    if !(h.get_char(0) == 'B' && h.get_char(1) == 'e' && h.get_char(2) == 'a' && h.get_char(3)
        == 'r' && h.get_char(4) == 'e' && h.get_char(5) == 'r' && h.get_char(6) == ' ') {
        return Err(UNAUTHORIZED);
    }
    let token = h.substring_char(7, n);
    match verify_token(token, secret, now) {
        Some(c) => Ok(c),
        None => Err(UNAUTHORIZED),
    }
}

} // verus!
