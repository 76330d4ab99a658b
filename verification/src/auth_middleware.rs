//! The request-guarding middleware's pure part: pulling the bearer token
//! out of the authorization header. Verifying the token and passing the
//! request on stay with the surrounding process.

use vstd::prelude::*;

use crate::text::{chars_to_string, is_prefix_of, str_starts_with, str_to_chars};

verus! {

/// The middleware factory guarding the protected endpoints.
#[derive(Debug)]
pub struct AuthMiddleware;

impl AuthMiddleware {
    /// The factory; it carries no state.
    pub fn new() -> AuthMiddleware {
        AuthMiddleware
    }
}

/// The token carried by an authorization header: what follows the bearer
/// marker, or the empty string when the marker is missing.
pub open spec fn spec_bearer_token(header: Seq<char>) -> Seq<char> {
    if is_prefix_of("Bearer "@, header) {
        header.skip(7)
    } else {
        Seq::empty()
    }
}

/// Pulls the bearer token out of an authorization header value.
pub fn bearer_token(header: &str) -> (r: String)
    ensures
        r@ == spec_bearer_token(header@),
{
    if str_starts_with(header, "Bearer ") {
        let v = str_to_chars(header);
        let mut out: Vec<char> = Vec::new();
        let mut i: usize = 7;
        proof {
            reveal_strlit("Bearer ");
        }
        while i < v.len()
            invariant
                7 <= i <= v@.len(),
                v@ == header@,
                7 <= v@.len(),
                out@ == header@.subrange(7, i as int),
            decreases v@.len() - i,
        {
            out.push(v[i]);
            proof {
                assert(out@ =~= header@.subrange(7, i as int + 1));
            }
            i = i + 1;
        }
        proof {
            assert(out@ =~= header@.skip(7));
        }
        chars_to_string(&out)
    } else {
        String::new()
    }
}

} // verus!
