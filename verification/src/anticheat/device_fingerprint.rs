//! Shared device signal: accounts seen on the same device fingerprint.
use vstd::prelude::*;

verus! {

/// Other accounts on one device that are still considered reasonable.
pub const REASONABLE_ACCOUNT_THRESHOLD: i64 = 2;

/// How many `multi_account_same_device` events to record: one per other
/// account beyond the threshold of 2.
pub fn extra_device_account_events(other_accounts: i64) -> (n: i64)
    ensures
        n == if other_accounts > 2 {
            other_accounts - 2
        } else {
            0
        },
        n >= 0,
{
    if other_accounts > REASONABLE_ACCOUNT_THRESHOLD {
        other_accounts - REASONABLE_ACCOUNT_THRESHOLD
    } else {
        0
    }
}

/// Inviter and invitee sharing any device or IP session is a referral-fraud pattern.
pub fn referral_is_suspicious(shared_sessions: i64) -> (r: bool)
    ensures
        r == (shared_sessions > 0),
{
    shared_sessions > 0
}

} // verus!
