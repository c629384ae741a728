use genius_clan::auth::errors::AuthError;
use genius_clan::auth::jwt::new_access_claims;
use genius_clan::middleware::auth_guard::{bearer_token, require_role};
use genius_clan::middleware::ip_allowlist::{
    allowlist_admits, cidr_parts, entry_matches, first_forwarded_hop, ip_allowed, ip_in_cidr,
    AllowEntry, IpValue,
};
use genius_clan::middleware::probe_guard::{blocked_substring, probe_verdict, ProbeVerdict, BLOCKED_COUNT};

fn v4(s: &str) -> IpValue {
    let parts: Vec<u32> = s.split('.').map(|p| p.parse::<u32>().unwrap()).collect();
    IpValue::V4((parts[0] << 24) | (parts[1] << 16) | (parts[2] << 8) | parts[3])
}

fn v6(s: &str) -> IpValue {
    let (head, tail) = s.split_once("::").unwrap();
    let groups = |t: &str| -> Vec<u128> {
        if t.is_empty() { vec![] } else { t.split(':').map(|g| u128::from_str_radix(g, 16).unwrap()).collect() }
    };
    let (h, t) = (groups(head), groups(tail));
    let mut all = h.clone();
    all.extend(std::iter::repeat(0).take(8 - h.len() - t.len()));
    all.extend(t);
    IpValue::V6(all.iter().fold(0u128, |acc, g| (acc << 16) | g))
}

#[test]
fn bearer_header_parsing() {
    assert_eq!(bearer_token(Some("Bearer abc.def")), Ok("abc.def".to_string()));
    assert_eq!(bearer_token(Some("Bearer ")), Ok(String::new()));
    assert_eq!(bearer_token(Some("bearer abc")), Err(AuthError::Unauthorized));
    assert_eq!(bearer_token(Some("Token abc")), Err(AuthError::Unauthorized));
    assert_eq!(bearer_token(None), Err(AuthError::Unauthorized));
}

#[test]
fn route_role_gate() {
    let c = new_access_claims("u", "support_admin", "s", 0);
    assert_eq!(require_role(&c, &["super_admin", "support_admin"]), Ok(()));
    assert_eq!(require_role(&c, &["super_admin"]), Err(AuthError::Unauthorized));
    assert_eq!(require_role(&c, &[]), Err(AuthError::Unauthorized));
}

#[test]
fn cidr_ranges() {
    assert!(ip_in_cidr(v4("10.1.2.3"), v4("10.0.0.0"), 8));
    assert!(!ip_in_cidr(v4("11.1.2.3"), v4("10.0.0.0"), 8));
    assert!(ip_in_cidr(v4("203.0.113.77"), v4("203.0.113.0"), 24));
    assert!(ip_in_cidr(v4("1.2.3.4"), v4("9.9.9.9"), 0));
    assert!(ip_in_cidr(v4("1.2.3.4"), v4("1.2.3.4"), 32));
    assert!(!ip_in_cidr(v4("1.2.3.5"), v4("1.2.3.4"), 32));
    assert!(!ip_in_cidr(v4("1.2.3.4"), v4("1.2.3.4"), 33));
    assert!(ip_in_cidr(v6("2001:db8::1"), v6("2001:db8::"), 32));
    assert!(!ip_in_cidr(v6("2001:db9::1"), v6("2001:db8::"), 32));
    assert!(!ip_in_cidr(v6("::1"), v6("::1"), 129));
    assert!(!ip_in_cidr(v4("1.2.3.4"), v6("::"), 0));
}

#[test]
fn allowlist_entries() {
    let entries = vec![
        AllowEntry { text: "".into(), cidr: None },
        AllowEntry { text: "198.51.100.7".into(), cidr: None },
        AllowEntry { text: "10.0.0.0/8".into(), cidr: Some((v4("10.0.0.0"), 8)) },
    ];
    assert!(ip_allowed(v4("198.51.100.7"), "198.51.100.7", &entries));
    assert!(ip_allowed(v4("10.9.9.9"), "10.9.9.9", &entries));
    assert!(!ip_allowed(v4("192.0.2.1"), "192.0.2.1", &entries));
    assert!(!entry_matches(v4("0.0.0.0"), "", &entries[0]));
    assert_eq!(cidr_parts("10.0.0.0/8"), Some(("10.0.0.0".to_string(), "8".to_string())));
    assert_eq!(cidr_parts("10.0.0.1"), None);
    assert_eq!(first_forwarded_hop(" 203.0.113.9 , 10.0.0.1"), "203.0.113.9");
    assert_eq!(first_forwarded_hop("198.51.100.2"), "198.51.100.2");
    assert!(allowlist_admits(0, "/api/x", None));
    assert!(allowlist_admits(2, "/health", None));
    assert!(allowlist_admits(2, "/health/store", Some(false)));
    assert!(!allowlist_admits(2, "/api/x", None));
    assert!(!allowlist_admits(2, "/api/x", Some(false)));
    assert!(allowlist_admits(2, "/api/x", Some(true)));
}

#[test]
fn probes_are_blocked() {
    assert_eq!(probe_verdict("/.env", "/.env", "GET"), ProbeVerdict::Blocked);
    assert_eq!(probe_verdict("/WP-Admin/setup", "/WP-Admin/setup", "GET"), ProbeVerdict::Blocked);
    assert_eq!(probe_verdict("/files", "/files?p=..%2F..%2Fetc", "GET"), ProbeVerdict::Blocked);
    assert_eq!(probe_verdict("/auth/login", "/auth/login", "TRACE"), ProbeVerdict::MethodNotAllowed);
    assert_eq!(probe_verdict("/auth/login", "/auth/login?x=1", "POST"), ProbeVerdict::Pass);
    assert_eq!(BLOCKED_COUNT, 20);
    assert_eq!(blocked_substring(19), "/../");
}
