//! The cached opinion about one token, and the transitions the decision makes on it.
use vstd::prelude::*;

verus! {

/// Seconds after which a cached "not revoked" answer must be confirmed again.
pub const REVALIDATION_WINDOW: i64 = 300;

/// What the cache holds for one token id.
#[derive(Clone, Debug)]
pub struct TokenStatus {
    pub revoked: bool,
    /// Epoch seconds of the last confirmation by the authority.
    pub last_checked: i64,
    pub device_id: String,
}

pub struct TokenStatusView {
    pub revoked: bool,
    pub last_checked: i64,
    pub device_id: Seq<char>,
}

impl View for TokenStatus {
    type V = TokenStatusView;

    open spec fn view(&self) -> TokenStatusView {
        TokenStatusView {
            revoked: self.revoked,
            last_checked: self.last_checked,
            device_id: self.device_id@,
        }
    }
}

pub open spec fn opt_view(s: Option<TokenStatus>) -> Option<TokenStatusView> {
    match s {
        Some(t) => Some(t@),
        None => None,
    }
}

/// The status a token has before anything was recorded for it.
pub open spec fn default_status() -> TokenStatusView {
    TokenStatusView { revoked: false, last_checked: 0, device_id: Seq::empty() }
}

/// The status after a revocation: the previous one (or the default) with `revoked` set.
pub open spec fn revoked_view(prev: Option<TokenStatusView>) -> TokenStatusView {
    let base = match prev {
        Some(p) => p,
        None => default_status(),
    };
    TokenStatusView { revoked: true, ..base }
}

/// The status after a fresh confirmation at `now`: not revoked, checked at `now`.
pub open spec fn fresh_view(prev: Option<TokenStatusView>, now: i64) -> TokenStatusView {
    let base = match prev {
        Some(p) => p,
        None => default_status(),
    };
    TokenStatusView { revoked: false, last_checked: now, ..base }
}

/// Whether a cached answer must be confirmed with the authority at `now`.
pub open spec fn is_stale(status: Option<TokenStatusView>, now: i64) -> bool {
    match status {
        None => true,
        Some(s) => now as int - s.last_checked as int > REVALIDATION_WINDOW as int,
    }
}

impl TokenStatus {
    pub fn copy(&self) -> (r: TokenStatus)
        ensures
            r@ == self@,
    {
        TokenStatus {
            revoked: self.revoked,
            last_checked: self.last_checked,
            device_id: self.device_id.clone(),
        }
    }
}

/// What a cache lookup says about a token.
#[derive(Debug)]
pub enum RedisCheck {
    /// Not revoked; the cached status, if there is one.
    Allowed { status: Option<TokenStatus> },
    /// Revoked, with the reason.
    Revoked(String),
}

/// Turns what the cache held for a token into a verdict on revocation.
pub fn check_token(found: Option<TokenStatus>) -> (r: RedisCheck)
    ensures
        match found {
            Some(s) => if s.revoked {
                r is Revoked && r->Revoked_0@ == "token got revoked"@
            } else {
                r == RedisCheck::Allowed { status: Some(s) }
            },
            None => r == RedisCheck::Allowed { status: None },
        },
{
    match found {
        Some(status) => {
            if status.revoked {
                return RedisCheck::Revoked(String::from_str("token got revoked"));
            }
            RedisCheck::Allowed { status: Some(status) }
        },
        None => RedisCheck::Allowed { status: None },
    }
}

/// The status to write back when revoking a token whose cached status was `prev`.
pub fn revoked_status(prev: Option<TokenStatus>) -> (r: TokenStatus)
    ensures
        r@ == revoked_view(opt_view(prev)),
{
    match prev {
        Some(mut status) => {
            status.revoked = true;
            status
        },
        None => TokenStatus { revoked: true, last_checked: 0, device_id: String::new() },
    }
}

/// The status to write back when the authority confirmed a token at `now`.
pub fn fresh_status(prev: Option<TokenStatus>, now: i64) -> (r: TokenStatus)
    ensures
        r@ == fresh_view(opt_view(prev), now),
{
    match prev {
        Some(mut status) => {
            status.revoked = false;
            status.last_checked = now;
            status
        },
        None => TokenStatus { revoked: false, last_checked: now, device_id: String::new() },
    }
}

/// Whether the cached status (none, or not revoked) must be confirmed with the authority.
pub fn needs_introspection(status: &Option<TokenStatus>, now: i64) -> (r: bool)
    ensures
        r == is_stale(opt_view(*status), now),
{
    match status {
        Some(s) => (now as i128) - (s.last_checked as i128) > REVALIDATION_WINDOW as i128,
        None => true,
    }
}

/// The cache key under which the status of token `token_id` is stored.
pub fn token_status_key(token_id: &str) -> (r: String)
    ensures
        r@ == "auth:token_status:"@ + token_id@,
{
    let mut key = String::from_str("auth:token_status:");
    key.append(token_id);
    key
}

} // verus!
