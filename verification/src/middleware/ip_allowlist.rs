//! Optional IP allowlist. When the list is empty the API is open; otherwise
//! only listed addresses (exact, or inside a listed CIDR range) reach it, and
//! the health probes are always let through.
use vstd::prelude::*;

use crate::text::{
    lemma_take_until_absent, lemma_take_until_split, spec_trim, split_once_char, take_until, trim,
};

verus! {

/// An IP address as its number: IPv4 in 32 bits, IPv6 in 128.
#[derive(Debug, Clone, Copy, PartialEq, Eq, Structural)]
pub enum IpValue {
    V4(u32),
    V6(u128),
}

pub open spec fn spec_ip_in_cidr(ip: IpValue, base: IpValue, prefix: u8) -> bool {
    match (ip, base) {
        (IpValue::V4(a), IpValue::V4(b)) => prefix <= 32 && (prefix == 0 || (a >> ((32 - prefix) as u32))
            == (b >> ((32 - prefix) as u32))),
        (IpValue::V6(a), IpValue::V6(b)) => prefix <= 128 && (prefix == 0 || (a >> ((128 - prefix) as u32))
            == (b >> ((128 - prefix) as u32))),
        _ => false,
    }
}

/// Whether `ip` lies in `base/prefix`: same family, a prefix length the family
/// allows, and the same leading `prefix` bits.
#[verifier::rlimit(80)]
pub fn ip_in_cidr(ip: IpValue, base: IpValue, prefix: u8) -> (r: bool)
    ensures
        r == spec_ip_in_cidr(ip, base, prefix),
{
    match (ip, base) {
        (IpValue::V4(a), IpValue::V4(b)) => {
            if prefix > 32 {
                return false;
            }
            if prefix == 0 {
                return true;
            }
            let s: u32 = (32 - prefix) as u32;
            let mask: u32 = u32::MAX << s;
            let same = (a & mask) == (b & mask);
            assert(((a & (u32::MAX << s)) == (b & (u32::MAX << s))) == ((a >> s) == (b >> s)))
                by (bit_vector)
                requires
                    s < 32,
            ;
            same
        },
        (IpValue::V6(a), IpValue::V6(b)) => {
            if prefix > 128 {
                return false;
            }
            if prefix == 0 {
                return true;
            }
            let s: u32 = (128 - prefix) as u32;
            let mask: u128 = u128::MAX << s;
            let same = (a & mask) == (b & mask);
            assert(((a & (u128::MAX << s)) == (b & (u128::MAX << s))) == ((a >> s) == (b >> s)))
                by (bit_vector)
                requires
                    s < 128,
            ;
            same
        },
        _ => false,
    }
}

/// One allowlist entry: its trimmed text and, when it is written `base/bits`
/// with both parts readable, the range it names.
pub struct AllowEntry {
    pub text: String,
    pub cidr: Option<(IpValue, u8)>,
}

pub open spec fn spec_entry_matches(ip: IpValue, ip_text: Seq<char>, e: AllowEntry) -> bool {
    e.text@.len() > 0 && (e.text@ == ip_text || (e.cidr matches Some((b, p)) && spec_ip_in_cidr(
        ip,
        b,
        p,
    )))
}

/// An entry admits an address written `ip_text` (numerically `ip`) when it
/// is that text exactly or a range holding it; a blank entry admits nobody.
pub fn entry_matches(ip: IpValue, ip_text: &str, e: &AllowEntry) -> (r: bool)
    ensures
        r == spec_entry_matches(ip, ip_text@, *e),
{
    if e.text.as_str().is_empty() {
        return false;
    }
    if e.text.as_str().eq(ip_text) {
        return true;
    }
    match e.cidr {
        Some((b, p)) => ip_in_cidr(ip, b, p),
        None => false,
    }
}

pub open spec fn spec_ip_allowed(ip: IpValue, ip_text: Seq<char>, entries: Seq<AllowEntry>) -> bool {
    exists|i: int| 0 <= i < entries.len() && spec_entry_matches(ip, ip_text, #[trigger] entries[i])
}

/// Whether any entry of the allowlist admits the address.
pub fn ip_allowed(ip: IpValue, ip_text: &str, entries: &Vec<AllowEntry>) -> (r: bool)
    ensures
        r == spec_ip_allowed(ip, ip_text@, entries@),
{
    let mut i: usize = 0;
    while i < entries.len()
        invariant
            i <= entries@.len(),
            forall|k: int| 0 <= k < i ==> !spec_entry_matches(ip, ip_text@, #[trigger] entries@[k]),
        decreases entries.len() - i,
    {
        if entry_matches(ip, ip_text, &entries[i]) {
            return true;
        }
        i += 1;
    }
    false
}

/// The two parts of an entry written `base/bits`, split at its first `/`.
pub fn cidr_parts(entry: &str) -> (r: Option<(String, String)>)
    ensures
        r matches Some((a, b)) ==> entry@ == a@ + seq!['/'] + b@ && !a@.contains('/'),
        r is None ==> !entry@.contains('/'),
{
    split_once_char(entry, '/')
}

/// The address a request came from, as written: the first hop of
/// `X-Forwarded-For` (up to its first comma), trimmed.
pub fn first_forwarded_hop(xff: &str) -> (r: String)
    ensures
        r@ == spec_trim(take_until(xff@, ',')),
{
    let first = match split_once_char(xff, ',') {
        Some((a, b)) => {
            proof {
                lemma_take_until_split(a@, ',', b@);
            }
            a
        },
        None => {
            proof {
                lemma_take_until_absent(xff@, ',');
            }
            String::from_str(xff)
        },
    };
    trim(first.as_str())
}

/// Whether the allowlist lets a request through: always when the list is
/// empty, always for the health probes, otherwise only for an address that
/// could be read (`client_allowed` is `None` when it could not) and is listed.
pub fn allowlist_admits(list_len: usize, path: &str, client_allowed: Option<bool>) -> (r: bool)
    ensures
        r == (list_len == 0 || path@ == "/health"@ || path@ == "/health/store"@ || client_allowed
            == Some(true)),
{
    if list_len == 0 {
        return true;
    }
    if path.eq("/health") || path.eq("/health/store") {
        return true;
    }
    match client_allowed {
        Some(true) => true,
        _ => false,
    }
}

} // verus!
