use vstd::prelude::*;

verus! {

/// The user's identity and bearer token.
#[derive(Debug, Clone)]
pub struct ServiceCredentials {
    pub username: String,
    pub token: Option<String>,
}

impl Default for ServiceCredentials {
    fn default() -> (r: Self)
        ensures
            r.username@ == Seq::<char>::empty(),
            r.token is None,
    {
        ServiceCredentials { username: String::new(), token: None }
    }
}

/// Wait after a successful refresh: one day, in milliseconds.
pub const REFRESH_PERIOD_MS: u64 = 86_400_000;

/// Wait after a failed refresh, or when there is no token: five minutes.
pub const RETRY_PERIOD_MS: u64 = 300_000;

/// What the refresher does after one attempt: the token to store, if it
/// changed, and how long to sleep.
#[derive(Debug)]
pub struct RefreshDecision {
    pub store: Option<String>,
    pub sleep_ms: u64,
}

impl ServiceCredentials {
    /// Records a successful login.
    pub fn record_login(&mut self, email: &str, token: String)
        ensures
            final(self).username@ == email@,
            final(self).token == Some(token),
    {
        self.username = email.to_owned();
        self.token = Some(token);
    }

    /// Forgets the user and the token.
    pub fn clear(&mut self)
        ensures
            final(self).username@ == Seq::<char>::empty(),
            final(self).token is None,
    {
        self.username = String::new();
        self.token = None;
    }
}

/// The refresher's decision once the authorization service answered for
/// `current` (`refreshed` is the new token, or `None` on failure). A new
/// token that differs is stored; a failure never clears the stored token.
/// Without a token, or after a failure, the next try comes sooner.
pub fn check_and_refresh(current: &Option<String>, refreshed: Option<String>) -> (r: RefreshDecision)
    ensures
        match (current, refreshed) {
            (Some(c), Some(t)) => {
                &&& r.sleep_ms == REFRESH_PERIOD_MS
                &&& (c@ == t@ ==> r.store is None)
                &&& (c@ != t@ ==> r.store == Some(t))
            },
            _ => r.store is None && r.sleep_ms == RETRY_PERIOD_MS,
        },
{
    match (current, refreshed) {
        (Some(old_token), Some(t)) => {
            if *old_token == t {
                RefreshDecision { store: None, sleep_ms: REFRESH_PERIOD_MS }
            } else {
                RefreshDecision { store: Some(t), sleep_ms: REFRESH_PERIOD_MS }
            }
        },
        _ => RefreshDecision { store: None, sleep_ms: RETRY_PERIOD_MS },
    }
}

} // verus!
