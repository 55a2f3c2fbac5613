use vstd::prelude::*;

verus! {

/// The claims of a session token: the user name and the expiry (seconds since the epoch).
pub struct Claims {
    pub sub: String,
    pub exp: usize,
}

} // verus!
