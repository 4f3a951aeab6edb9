//! The token claims the transport layer signs for a logged-in account.
//! Account storage and token signing themselves belong to the transport
//! collaborator; the core only defines the claim record.

use vstd::prelude::*;

verus! {

/// Claims carried by a session token: the account id and the expiry time
/// in seconds since the Unix epoch.
#[derive(Debug)]
pub struct Claims {
    pub sub: String,
    pub exp: usize,
}

impl Claims {
    pub fn new(sub: String, exp: usize) -> (c: Claims)
        ensures
            c.sub == sub,
            c.exp == exp,
    {
        Claims { sub, exp }
    }
}

} // verus!
