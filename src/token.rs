use vstd::prelude::*;

use crate::error::Error;

verus! {

/// Milliseconds in one second.
pub const MILLIS_PER_SECOND: u64 = 1000;

/// A token reply as the provider sends it: a lifetime in seconds, relative
/// to the moment it was received.
#[derive(Debug)]
pub struct AccessTokenJSON {
    pub access_token: String,
    pub refresh_token: String,
    pub expires_in: i32,
}

/// A token ready for use; `expires_at` is an instant in milliseconds on the
/// caller's monotonic clock.
#[derive(Debug)]
pub struct AccessToken {
    pub access_token: String,
    pub refresh_token: String,
    pub expires_at: u64,
}

/// The instant at which a lifetime of `expires_in` seconds, started at `now`,
/// runs out.
pub open spec fn expiry_instant(now: u64, expires_in: i32) -> int {
    now + expires_in * 1000
}

/// Whether a reply received at `now` can be turned into a token whose
/// expiry is representable.
pub open spec fn expiry_fits(now: u64, expires_in: i32) -> bool {
    expires_in >= 0 ==> expiry_instant(now, expires_in) <= u64::MAX
}

impl AccessToken {
    /// Whether the token can no longer be used at instant `now`.
    pub open spec fn expired_at(&self, now: u64) -> bool {
        self.expires_at <= now
    }

    /// Whether the token can no longer be used at instant `now`.
    pub fn is_expired(&self, now: u64) -> (r: bool)
        ensures
            r == self.expired_at(now),
    {
        self.expires_at <= now
    }
}

/// Turns a token reply received at instant `now` (milliseconds) into a token.
///
/// A negative lifetime is rejected; otherwise both token strings are kept and
/// the expiry lies `expires_in` seconds after `now`.
pub fn convert_token(token: AccessTokenJSON, now: u64) -> (r: Result<AccessToken, Error>)
    requires
        expiry_fits(now, token.expires_in),
    ensures
        token.expires_in < 0 <==> r is Err,
        r matches Err(e) ==> e == (Error::InvalidTokenLifetime { expires_in: token.expires_in }),
        r matches Ok(t) ==> t.access_token == token.access_token
            && t.refresh_token == token.refresh_token
            && t.expires_at == expiry_instant(now, token.expires_in),
{
    if token.expires_in < 0 {
        return Err(Error::InvalidTokenLifetime { expires_in: token.expires_in });
    }
    let lifetime: u64 = token.expires_in as u64 * MILLIS_PER_SECOND;
    Ok(
        AccessToken {
            access_token: token.access_token,
            refresh_token: token.refresh_token,
            expires_at: now + lifetime,
        },
    )
}

} // verus!
