use vstd::prelude::*;

use crate::error::Error;
use crate::model::Token;

verus! {

/// Holds the access token every authenticated request reads.
///
/// The embedding performs the logins; each outcome is applied here as a
/// whole, so a reader sees either the previous or the new token, never a
/// torn one. Without credentials the holder is inert: the stored token
/// stays the invalid default and `get_token` answers nothing.
pub struct AccessTokenHolder {
    pub user_name: Option<String>,
    pub password: Option<String>,
    pub token: Token,
}

impl AccessTokenHolder {
    /// Whether credentials were configured; the refresh loop runs only
    /// then.
    pub open spec fn credentialed(self) -> bool {
        self.user_name is Some && self.password is Some
    }

    /// A holder over the given credentials, starting from the empty,
    /// invalid token; the embedding applies its first login's outcome
    /// with [`AccessTokenHolder::apply_refresh`].
    pub fn new(user_name: Option<String>, password: Option<String>) -> (r: Self)
        ensures
            r.user_name == user_name,
            r.password == password,
            !r.token.spec_valid(),
    {
        AccessTokenHolder { user_name, password, token: Token::default() }
    }

    /// Whether the embedding should run login and refresh at all.
    pub fn has_credentials(&self) -> (b: bool)
        ensures
            b == self.credentialed(),
    {
        self.user_name.is_some() && self.password.is_some()
    }

    /// The current token's value, exactly when the stored token is
    /// valid; callers re-fetch it at every request.
    pub fn get_token(&self) -> (r: Option<String>)
        ensures
            match r {
                Some(s) => self.token.spec_valid() && s@ == self.token.access_token@,
                None => !self.token.spec_valid(),
            },
    {
        if self.token.valid() {
            Some(self.token.access_token.clone())
        } else {
            None
        }
    }

    /// Applies one round of the refresh loop: a new token replaces the
    /// stored one as a whole and the next attempt is due in half its
    /// lifetime (seconds); an error keeps the old token and retries in
    /// six seconds.
    pub fn apply_refresh(&mut self, outcome: Result<Token, Error>) -> (delay_secs: u64)
        ensures
            final(self).user_name == old(self).user_name,
            final(self).password == old(self).password,
            match outcome {
                Ok(t) => final(self).token == t && delay_secs == t.token_ttl / 2,
                Err(_) => final(self).token == old(self).token && delay_secs == 6,
            },
    {
        match outcome {
            Ok(t) => {
                let ttl = t.token_ttl;
                self.token = t;
                ttl / 2
            },
            Err(_) => 6,
        }
    }
}

/// After a refresh succeeds with a usable token, `get_token` answers the
/// new value, and the next refresh is due at half the returned lifetime.
pub proof fn lemma_refresh_then_get(
    pre: AccessTokenHolder,
    post: AccessTokenHolder,
    t: Token,
    delay_secs: u64,
)
    requires
        post.token == t,
        delay_secs == t.token_ttl / 2,
        t.spec_valid(),
    ensures
        post.token.spec_valid(),
        post.token.access_token@ == t.access_token@,
        delay_secs == t.token_ttl / 2,
{
}

} // verus!
