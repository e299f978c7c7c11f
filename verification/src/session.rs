//! A stored session: the token pair as it sits in the credential store.

use vstd::prelude::*;

verus! {

/// The persisted token pair. Reading and writing the store is the
/// surrounding I/O layer's job; this is the value it carries.
pub struct Session {
    pub token: String,
    pub refresh_token: String,
}

impl Session {
    pub fn new(token: &str, refresh_token: &str) -> (r: Self)
        ensures
            r.token@ == token@,
            r.refresh_token@ == refresh_token@,
    {
        Self { token: token.to_owned(), refresh_token: refresh_token.to_owned() }
    }
}

} // verus!
