//! The claims an access token carries and how long it lives. Signing and
//! checking the token itself is done at the service edge.
use vstd::prelude::*;

verus! {

/// An access token lives exactly five minutes.
pub const ACCESS_TOKEN_TTL_SECS: i64 = 300;

pub struct AccessClaims {
    /// The user's id.
    pub sub: String,
    pub role: String,
    pub session_id: String,
    pub exp: i64,
    pub iat: i64,
}

/// Claims for a token issued at `now` (seconds since the epoch) to a user in a
/// session: issued now, expiring five minutes later.
pub fn new_access_claims(user_id: &str, role: &str, session_id: &str, now: i64) -> (c: AccessClaims)
    requires
        now <= i64::MAX - ACCESS_TOKEN_TTL_SECS,
    ensures
        c.sub@ == user_id@,
        c.role@ == role@,
        c.session_id@ == session_id@,
        c.iat == now,
        c.exp == now + ACCESS_TOKEN_TTL_SECS,
{
    AccessClaims {
        sub: String::from_str(user_id),
        role: String::from_str(role),
        session_id: String::from_str(session_id),
        iat: now,
        exp: now + ACCESS_TOKEN_TTL_SECS,
    }
}

} // verus!
