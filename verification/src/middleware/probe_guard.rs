//! Application firewall: scanner and probe paths are answered `404` before
//! any handler runs, and `TRACE`/`TRACK` are refused.
use vstd::prelude::*;

use crate::text::{chars_of, contains_chars, spec_ascii_lower, spec_contains, to_ascii_lowercase};

verus! {

/// Number of blocked path fragments.
pub const BLOCKED_COUNT: usize = 20;

/// Path fragments that never belong on this origin.
pub open spec fn blocked_substrings() -> Seq<Seq<char>> {
    seq![
        "/.env"@,
        "/.git"@,
        "/.svn"@,
        "/.hg"@,
        "/.aws"@,
        "/wp-admin"@,
        "/wp-login"@,
        "/wp-content"@,
        "/phpmyadmin"@,
        "/admin.php"@,
        "/xmlrpc.php"@,
        "/vendor/phpunit"@,
        "/actuator"@,
        "/server-status"@,
        "/cgi-bin"@,
        "/etc/passwd"@,
        "/proc/self"@,
        "..%2f"@,
        "%2e%2e"@,
        "/../"@,
    ]
}

/// The `i`-th blocked fragment.
pub fn blocked_substring(i: usize) -> (s: &'static str)
    requires
        i < BLOCKED_COUNT,
    ensures
        s@ == blocked_substrings()[i as int],
{
    match i {
        0 => "/.env",
        1 => "/.git",
        2 => "/.svn",
        3 => "/.hg",
        4 => "/.aws",
        5 => "/wp-admin",
        6 => "/wp-login",
        7 => "/wp-content",
        8 => "/phpmyadmin",
        9 => "/admin.php",
        10 => "/xmlrpc.php",
        11 => "/vendor/phpunit",
        12 => "/actuator",
        13 => "/server-status",
        14 => "/cgi-bin",
        15 => "/etc/passwd",
        16 => "/proc/self",
        17 => "..%2f",
        18 => "%2e%2e",
        _ => "/../",
    }
}

#[derive(Debug, Clone, Copy, PartialEq, Eq, Structural)]
pub enum ProbeVerdict {
    /// A probe path: answered `404 not found`.
    Blocked,
    /// `TRACE` or `TRACK`: answered `405`.
    MethodNotAllowed,
    /// Passed on to the handlers.
    Pass,
}

pub open spec fn is_probe(path: Seq<char>, path_and_query: Seq<char>) -> bool {
    exists|i: int|
        0 <= i < BLOCKED_COUNT && (spec_contains(spec_ascii_lower(path), #[trigger] blocked_substrings()[i])
            || spec_contains(spec_ascii_lower(path_and_query), blocked_substrings()[i]))
}

pub open spec fn spec_probe_verdict(path: Seq<char>, path_and_query: Seq<char>, method: Seq<char>) -> ProbeVerdict {
    if is_probe(path, path_and_query) {
        ProbeVerdict::Blocked
    } else if method == "TRACE"@ || method == "TRACK"@ {
        ProbeVerdict::MethodNotAllowed
    } else {
        ProbeVerdict::Pass
    }
}

/// The verdict on a request: blocked when its path, or its path with query,
/// holds a blocked fragment (compared in ASCII lower case); then `TRACE` and
/// `TRACK` are refused; everything else passes.
pub fn probe_verdict(path: &str, path_and_query: &str, method: &str) -> (v: ProbeVerdict)
    ensures
        v == spec_probe_verdict(path@, path_and_query@, method@),
{
    let lower_path = to_ascii_lowercase(path);
    let lower_raw = to_ascii_lowercase(path_and_query);
    let p = chars_of(lower_path.as_str());
    let raw = chars_of(lower_raw.as_str());
    let mut i: usize = 0;
    while i < BLOCKED_COUNT
        invariant
            i <= BLOCKED_COUNT,
            p@ == spec_ascii_lower(path@),
            raw@ == spec_ascii_lower(path_and_query@),
            forall|k: int|
                0 <= k < i ==> !spec_contains(p@, #[trigger] blocked_substrings()[k])
                    && !spec_contains(raw@, blocked_substrings()[k]),
        decreases BLOCKED_COUNT - i,
    {
        let needle = chars_of(blocked_substring(i));
        if contains_chars(&p, &needle) || contains_chars(&raw, &needle) {
            return ProbeVerdict::Blocked;
        }
        i += 1;
    }
    if method.eq("TRACE") || method.eq("TRACK") {
        return ProbeVerdict::MethodNotAllowed;
    }
    ProbeVerdict::Pass
}

} // verus!
