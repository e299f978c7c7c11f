//! The access/refresh token pair held by an authenticated session.

use vstd::prelude::*;

verus! {

/// An access token together with the refresh token that can replace it.
/// The pair is an immutable value: a login or a refresh replaces it
/// wholesale, never one half of it.
pub struct AuthTokens {
    pub token: String,
    pub refresh_token: String,
}

impl AuthTokens {
    pub fn new(token: &str, refresh_token: &str) -> (r: Self)
        ensures
            r.token@ == token@,
            r.refresh_token@ == refresh_token@,
    {
        Self { token: token.to_owned(), refresh_token: refresh_token.to_owned() }
    }
}

} // verus!
