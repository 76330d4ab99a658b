//! The claims carried by an access or refresh token. Signing and checking
//! the tokens themselves is the surrounding process's work.

use vstd::prelude::*;

verus! {

/// The claims inside a token: the subject, the user name, whether this is
/// an access or a refresh token, and the expiry as seconds since the epoch.
#[derive(Clone, Debug)]
pub struct Claims {
    pub sub: String,
    pub username: String,
    pub token_type: String,
    pub exp: usize,
}

} // verus!
