//! What the security log lines reveal of an identifier, and the key under
//! which a screen-scan consent is kept.
use vstd::prelude::*;

use crate::text::{chars_of, string_before};

verus! {

/// The part of a login identifier a log line may show: its first three
/// characters (all of it when shorter).
pub fn identifier_prefix(identifier: &str) -> (p: String)
    ensures
        p@ == identifier@.take(if identifier@.len() < 3 {
            identifier@.len() as int
        } else {
            3
        }),
{
    let cs = chars_of(identifier);
    let n: usize = if cs.len() < 3 {
        cs.len()
    } else {
        3
    };
    string_before(&cs, n)
}

/// `screen_scan_consent:{user_id}`
pub fn consent_key(user_id: &str) -> (k: String)
    ensures
        k@ == "screen_scan_consent:"@ + user_id@,
{
    let mut k = String::from_str("screen_scan_consent:");
    k.append(user_id);
    k
}

} // verus!
