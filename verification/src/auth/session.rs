//! Sessions: online detection, the device-conflict cases, and refresh-token
//! rotation with reuse detection (a rotated-out token presented again kills
//! the whole session).
use vstd::prelude::*;

use super::errors::AuthError;

verus! {

/// A device with no heartbeat for this long is offline.
pub const ONLINE_THRESHOLD_SECS: i64 = 120;

/// What a new session is created from.
pub struct NewSessionInput<'a> {
    pub user_id: &'a str,
    pub device_fingerprint: Option<&'a str>,
    pub ip_address: Option<&'a str>,
    pub browser: Option<&'a str>,
    pub os: Option<&'a str>,
}

/// A created session; the plain refresh token goes to the client once and is never stored.
pub struct IssuedSession {
    pub session_id: String,
    pub refresh_token_plain: String,
}

pub struct SessionRow {
    pub id: String,
    pub user_id: String,
    pub refresh_token_hash: String,
    pub previous_refresh_token_hash: Option<String>,
    pub is_active: i64,
    pub last_seen_at: Option<String>,
    pub expires_at: String,
}

/// One row of the user's own session list.
pub struct SessionListRow {
    pub id: String,
    pub device_fingerprint: Option<String>,
    pub ip_address: Option<String>,
    pub browser: Option<String>,
    pub os: Option<String>,
    pub is_active: i64,
    pub last_seen_at: Option<String>,
    pub created_at: String,
}

/// Online means a heartbeat less than 120 seconds ago; no (readable) last-seen
/// time means offline.
pub fn is_session_online(last_seen_age_secs: Option<i64>) -> (online: bool)
    ensures
        online == (last_seen_age_secs matches Some(age) && age < 120),
{
    match last_seen_age_secs {
        Some(age) => age < ONLINE_THRESHOLD_SECS,
        None => false,
    }
}

/// The three device-conflict cases at login with 2FA on.
#[derive(Debug, Clone, Copy, PartialEq, Eq, Structural)]
pub enum DeviceCase {
    /// Case A: no active session at all.
    NoActiveSession,
    /// Case B: an active session exists, but its device is offline.
    ActiveButOffline,
    /// Case C: an active session exists and its device is online: the old
    /// device must approve.
    ActiveAndOnline,
}

/// From the user's newest active session (if any) and whether it is online.
pub fn determine_device_case(active_session_online: Option<bool>) -> (c: DeviceCase)
    ensures
        c == match active_session_online {
            None => DeviceCase::NoActiveSession,
            Some(false) => DeviceCase::ActiveButOffline,
            Some(true) => DeviceCase::ActiveAndOnline,
        },
{
    match active_session_online {
        None => DeviceCase::NoActiveSession,
        Some(online) => if online {
            DeviceCase::ActiveAndOnline
        } else {
            DeviceCase::ActiveButOffline
        },
    }
}

/// Only case C needs the old device's approval before the code is asked for.
pub fn requires_old_device_approval(c: DeviceCase) -> (r: bool)
    ensures
        r == (c == DeviceCase::ActiveAndOnline),
{
    match c {
        DeviceCase::ActiveAndOnline => true,
        _ => false,
    }
}

/// What a refresh request leads to.
#[derive(Debug, Clone, Copy, PartialEq, Eq, Structural)]
pub enum RefreshVerdict {
    /// Replay of an invalidated session's token, or of a token already
    /// rotated out: the session is killed (`invalidate` when it is still
    /// active) and the client must log in again.
    ReuseDetected { invalidate: bool },
    /// Past the 3-day expiry: the session is invalidated.
    Expired,
    /// The stored expiry cannot be read.
    UnreadableExpiry,
    /// Issue a new refresh token and rotate.
    Rotate,
}

pub open spec fn opt_view(o: Option<String>) -> Option<Seq<char>> {
    match o {
        Some(s) => Some(s@),
        None => None,
    }
}

pub open spec fn spec_refresh_verdict(
    current: Seq<char>,
    previous: Option<Seq<char>>,
    is_active: i64,
    presented: Seq<char>,
    expired: Option<bool>,
) -> RefreshVerdict {
    let stale_replay = current != presented && previous == Some(presented);
    if is_active == 0 || stale_replay {
        RefreshVerdict::ReuseDetected { invalidate: is_active == 1 }
    } else {
        match expired {
            None => RefreshVerdict::UnreadableExpiry,
            Some(true) => RefreshVerdict::Expired,
            Some(false) => RefreshVerdict::Rotate,
        }
    }
}

/// Decides a refresh for the session whose current or previous hash matched
/// the presented token's hash. `expired` is `None` when the expiry is unreadable.
pub fn refresh_verdict(session: &SessionRow, presented_hash: &str, expired: Option<bool>) -> (v:
    RefreshVerdict)
    ensures
        v == spec_refresh_verdict(
            session.refresh_token_hash@,
            opt_view(session.previous_refresh_token_hash),
            session.is_active,
            presented_hash@,
            expired,
        ),
{
    let current_differs = !session.refresh_token_hash.as_str().eq(presented_hash);
    let previous_matches = match &session.previous_refresh_token_hash {
        Some(p) => p.as_str().eq(presented_hash),
        None => false,
    };
    let stale_replay = current_differs && previous_matches;
    if session.is_active == 0 || stale_replay {
        return RefreshVerdict::ReuseDetected { invalidate: session.is_active == 1 };
    }
    match expired {
        None => RefreshVerdict::UnreadableExpiry,
        Some(true) => RefreshVerdict::Expired,
        Some(false) => RefreshVerdict::Rotate,
    }
}

pub open spec fn spec_refresh_error(v: RefreshVerdict) -> Result<(), AuthError> {
    match v {
        RefreshVerdict::ReuseDetected { .. } => Err(AuthError::RefreshTokenReuseDetected),
        RefreshVerdict::Expired => Err(AuthError::Unauthorized),
        RefreshVerdict::UnreadableExpiry => Err(AuthError::Internal),
        RefreshVerdict::Rotate => Ok::<(), AuthError>(()),
    }
}

/// The error a refresh verdict answers with (`Rotate` succeeds).
pub fn refresh_error(v: RefreshVerdict) -> (r: Result<(), AuthError>)
    ensures
        r == spec_refresh_error(v),
{
    match v {
        RefreshVerdict::ReuseDetected { .. } => Err(AuthError::RefreshTokenReuseDetected),
        RefreshVerdict::Expired => Err(AuthError::Unauthorized),
        RefreshVerdict::UnreadableExpiry => Err(AuthError::Internal),
        RefreshVerdict::Rotate => Ok(()),
    }
}

/// Rotation: the current hash becomes the previous one and the new hash is current.
pub fn rotate_refresh_hashes(session: &mut SessionRow, new_hash: String)
    ensures
        final(session).refresh_token_hash@ == new_hash@,
        opt_view(final(session).previous_refresh_token_hash) == Some(old(session).refresh_token_hash@),
        final(session).is_active == old(session).is_active,
        final(session).id == old(session).id,
        final(session).user_id == old(session).user_id,
        final(session).expires_at == old(session).expires_at,
        final(session).last_seen_at == old(session).last_seen_at,
{
    let mut held = new_hash;
    std::mem::swap(&mut session.refresh_token_hash, &mut held);
    session.previous_refresh_token_hash = Some(held);
}

/// One refresh request against a session, as (current hash, previous hash,
/// active flag, answer) afterwards: a replayed or rotated-out token, or an
/// expired session, deactivates the session; a good token rotates to
/// `new_hash`; an unreadable expiry changes nothing.
pub open spec fn spec_refresh_step(
    current: Seq<char>,
    previous: Option<Seq<char>>,
    is_active: i64,
    presented: Seq<char>,
    expired: Option<bool>,
    new_hash: Seq<char>,
) -> (Seq<char>, Option<Seq<char>>, i64, Result<(), AuthError>) {
    let v = spec_refresh_verdict(current, previous, is_active, presented, expired);
    match v {
        RefreshVerdict::Rotate => (new_hash, Some(current), is_active, spec_refresh_error(v)),
        RefreshVerdict::UnreadableExpiry => (current, previous, is_active, spec_refresh_error(v)),
        _ => (current, previous, 0, spec_refresh_error(v)),
    }
}

/// Applies one refresh request to the session found for the presented token's
/// hash (`expired`: whether its expiry has passed, `None` when unreadable):
/// returns the answer and leaves the session as it must be stored.
pub fn refresh_step(session: &mut SessionRow, presented_hash: &str, expired: Option<bool>, new_hash: String) -> (r:
    Result<(), AuthError>)
    ensures
        (final(session).refresh_token_hash@, opt_view(final(session).previous_refresh_token_hash),
            final(session).is_active, r) == spec_refresh_step(
            old(session).refresh_token_hash@,
            opt_view(old(session).previous_refresh_token_hash),
            old(session).is_active,
            presented_hash@,
            expired,
            new_hash@,
        ),
        final(session).id == old(session).id,
        final(session).user_id == old(session).user_id,
        final(session).expires_at == old(session).expires_at,
        final(session).last_seen_at == old(session).last_seen_at,
{
    let v = refresh_verdict(session, presented_hash, expired);
    match v {
        RefreshVerdict::Rotate => {
            rotate_refresh_hashes(session, new_hash);
        },
        RefreshVerdict::UnreadableExpiry => {},
        _ => {
            session.is_active = 0;
        },
    }
    refresh_error(v)
}

/// After a good refresh with token `t1` (hash `h1`) rotated the session to
/// `h2`, presenting `t1` again is refused as reuse and kills the session, and
/// then even the new token `t2` is refused.
pub proof fn lemma_old_token_refused_after_rotation(
    h1: Seq<char>,
    previous: Option<Seq<char>>,
    h2: Seq<char>,
    h3: Seq<char>,
    h4: Seq<char>,
    e2: Option<bool>,
    e3: Option<bool>,
)
    requires
        h1 != h2,
    ensures
        ({
            let s1 = spec_refresh_step(h1, previous, 1, h1, Some(false), h2);
            let s2 = spec_refresh_step(s1.0, s1.1, s1.2, h1, e2, h3);
            let s3 = spec_refresh_step(s2.0, s2.1, s2.2, h2, e3, h4);
            &&& s1.3 is Ok
            &&& s1.0 == h2 && s1.2 == 1
            &&& s2.3 == Err::<(), AuthError>(AuthError::RefreshTokenReuseDetected)
            &&& s2.2 == 0
            &&& s3.3 == Err::<(), AuthError>(AuthError::RefreshTokenReuseDetected)
        }),
{
}

/// A rotated-out token is dead: once a session has rotated to a new token,
/// presenting the old one again is detected as reuse, never honoured.
pub proof fn lemma_rotated_token_is_reuse(
    old_current: Seq<char>,
    new_current: Seq<char>,
    is_active: i64,
    expired: Option<bool>,
)
    requires
        new_current != old_current,
    ensures
        spec_refresh_verdict(new_current, Some(old_current), is_active, old_current, expired) is ReuseDetected,
{
}

/// An invalidated session never rotates, whatever token is presented.
pub proof fn lemma_inactive_session_never_rotates(
    current: Seq<char>,
    previous: Option<Seq<char>>,
    presented: Seq<char>,
    expired: Option<bool>,
)
    ensures
        spec_refresh_verdict(current, previous, 0, presented, expired) is ReuseDetected,
{
}

/// Revoking a session the user does not own (no row changed) is `Unauthorized`.
pub fn revoke_result(rows_affected: u64) -> (r: Result<(), AuthError>)
    ensures
        r == if rows_affected == 0 {
            Err(AuthError::Unauthorized)
        } else {
            Ok::<(), AuthError>(())
        },
{
    if rows_affected == 0 {
        return Err(AuthError::Unauthorized);
    }
    Ok(())
}

} // verus!
