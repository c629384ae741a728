//! Small, fully specified text helpers shared by the rule modules.
use vstd::prelude::*;

verus! {

/// `String::push` appends exactly one character.
pub assume_specification[ String::push ](s: &mut String, ch: char)
    ensures
        final(s)@ == old(s)@.push(ch),
;

/// `str == str` compares the two character sequences.
pub assume_specification[ <str as PartialEq>::eq ](a: &str, b: &str) -> (r: bool)
    ensures
        r == (a@ == b@),
;

pub open spec fn is_ascii_upper(c: char) -> bool {
    'A' <= c <= 'Z'
}

pub open spec fn is_ascii_lower(c: char) -> bool {
    'a' <= c <= 'z'
}

pub open spec fn is_ascii_digit(c: char) -> bool {
    '0' <= c <= '9'
}

pub open spec fn is_ascii_alnum(c: char) -> bool {
    is_ascii_upper(c) || is_ascii_lower(c) || is_ascii_digit(c)
}

pub open spec fn is_ascii_char(c: char) -> bool {
    (c as u32) < 128
}

pub open spec fn all_ascii(s: Seq<char>) -> bool {
    forall|i: int| 0 <= i < s.len() ==> is_ascii_char(#[trigger] s[i])
}

/// ASCII lower-casing of one character: `A`..`Z` map to `a`..`z`, all else is kept.
pub open spec fn spec_ascii_lower_char(c: char) -> char {
    if is_ascii_upper(c) {
        ((c as u32) + 32) as char
    } else {
        c
    }
}

pub open spec fn spec_ascii_lower(s: Seq<char>) -> Seq<char> {
    s.map_values(|c: char| spec_ascii_lower_char(c))
}

pub fn ascii_lower_char(c: char) -> (r: char)
    ensures
        r == spec_ascii_lower_char(c),
{
    if 'A' <= c && c <= 'Z' {
        let code: u32 = c as u32 + 32;
        assert(code < 0xD800);
        char::from_u32(code).unwrap()
    } else {
        c
    }
}

/// `char::from_u32` yields the character with that code for every valid scalar value.
pub assume_specification[ char::from_u32 ](i: u32) -> (r: Option<char>)
    ensures
        (i < 0xD800 || (0xE000 <= i && i <= 0x10FFFF)) ==> r == Some(i as char),
        !(i < 0xD800 || (0xE000 <= i && i <= 0x10FFFF)) ==> r is None,
;

/// The characters of `s`, one per element.
pub fn chars_of(s: &str) -> (v: Vec<char>)
    ensures
        v@ == s@,
{
    let mut v: Vec<char> = Vec::new();
    for c in it: s.chars()
        invariant
            v@ == it.seq().take(it.index() as int),
            it.seq() == s@,
    {
        proof {
            assert(it.seq()[it.index() as int] == c);
        }
        v.push(c);
        assert(v@ =~= it.seq().take(it.index() as int + 1));
    }
    assert(v@ =~= s@);
    v
}

/// Builds a `String` from characters.
pub fn string_of(cs: &Vec<char>) -> (s: String)
    ensures
        s@ == cs@,
{
    let mut s = String::new();
    let mut i: usize = 0;
    while i < cs.len()
        invariant
            i <= cs.len(),
            s@ == cs@.take(i as int),
        decreases cs.len() - i,
    {
        s.push(cs[i]);
        i += 1;
        assert(s@ =~= cs@.take(i as int));
    }
    assert(cs@.take(cs.len() as int) =~= cs@);
    s
}

/// ASCII lower-casing of a whole string (the behaviour of `str::to_ascii_lowercase`).
pub fn to_ascii_lowercase(s: &str) -> (r: String)
    ensures
        r@ == spec_ascii_lower(s@),
{
    let cs = chars_of(s);
    let mut out: Vec<char> = Vec::new();
    let mut i: usize = 0;
    while i < cs.len()
        invariant
            i <= cs.len(),
            cs@ == s@,
            out@ == spec_ascii_lower(s@.take(i as int)),
        decreases cs.len() - i,
    {
        let c = ascii_lower_char(cs[i]);
        out.push(c);
        i += 1;
        assert(out@ =~= spec_ascii_lower(s@.take(i as int)));
    }
    assert(s@.take(cs.len() as int) =~= s@);
    string_of(&out)
}

/// `needle` occurs in `hay` at position `i`.
pub open spec fn occurs_at(hay: Seq<char>, needle: Seq<char>, i: int) -> bool {
    0 <= i && i + needle.len() <= hay.len() && hay.subrange(i, i + needle.len()) == needle
}

pub open spec fn spec_contains(hay: Seq<char>, needle: Seq<char>) -> bool {
    exists|i: int| occurs_at(hay, needle, i)
}

fn matches_at(hay: &Vec<char>, needle: &Vec<char>, i: usize) -> (r: bool)
    requires
        i + needle.len() <= hay.len(),
    ensures
        r == occurs_at(hay@, needle@, i as int),
{
    let mut j: usize = 0;
    while j < needle.len()
        invariant
            j <= needle.len(),
            i + needle.len() <= hay.len(),
            forall|k: int| 0 <= k < j ==> hay@[i + k] == needle@[k],
        decreases needle.len() - j,
    {
        if hay[i + j] != needle[j] {
            assert(hay@.subrange(i as int, i + needle.len())[j as int] != needle@[j as int]);
            return false;
        }
        j += 1;
    }
    assert(hay@.subrange(i as int, i + needle.len()) =~= needle@);
    true
}

/// Substring search over character sequences.
pub fn contains_chars(hay: &Vec<char>, needle: &Vec<char>) -> (r: bool)
    ensures
        r == spec_contains(hay@, needle@),
{
    if needle.len() > hay.len() {
        assert forall|i: int| !occurs_at(hay@, needle@, i) by {}
        return false;
    }
    let last = hay.len() - needle.len();
    let mut i: usize = 0;
    loop
        invariant
            last == hay.len() - needle.len(),
            needle.len() <= hay.len(),
            i <= last,
            forall|k: int| 0 <= k < i ==> !occurs_at(hay@, needle@, k),
        ensures
            forall|k: int| 0 <= k <= last ==> !occurs_at(hay@, needle@, k),
        decreases last - i,
    {
        if matches_at(hay, needle, i) {
            return true;
        }
        if i == last {
            break;
        }
        i += 1;
    }
    false
}

/// `s` contains the character `c`.
pub fn has_char(s: &Vec<char>, c: char) -> (r: bool)
    ensures
        r == s@.contains(c),
{
    let mut i: usize = 0;
    while i < s.len()
        invariant
            i <= s.len(),
            forall|k: int| 0 <= k < i ==> s@[k] != c,
        decreases s.len() - i,
    {
        if s[i] == c {
            assert(s@[i as int] == c);
            return true;
        }
        i += 1;
    }
    false
}

/// The Unicode `White_Space` property (what `char::is_whitespace` tests).
pub open spec fn is_unicode_whitespace(c: char) -> bool {
    let u = c as u32;
    (0x09 <= u <= 0x0D) || u == 0x20 || u == 0x85 || u == 0xA0 || u == 0x1680 || (0x2000 <= u
        <= 0x200A) || u == 0x2028 || u == 0x2029 || u == 0x202F || u == 0x205F || u == 0x3000
}

pub fn is_whitespace(c: char) -> (r: bool)
    ensures
        r == is_unicode_whitespace(c),
{
    let u = c as u32;
    (0x09 <= u && u <= 0x0D) || u == 0x20 || u == 0x85 || u == 0xA0 || u == 0x1680 || (0x2000 <= u
        && u <= 0x200A) || u == 0x2028 || u == 0x2029 || u == 0x202F || u == 0x205F || u == 0x3000
}

/// `s` with leading and trailing whitespace removed (the behaviour of `str::trim`):
/// the part between the first and after the last non-whitespace character.
pub open spec fn spec_trim(s: Seq<char>) -> Seq<char> {
    if forall|i: int| 0 <= i < s.len() ==> is_unicode_whitespace(#[trigger] s[i]) {
        Seq::empty()
    } else {
        let a = choose|a: int|
            0 <= a < s.len() && !is_unicode_whitespace(s[a]) && forall|i: int|
                0 <= i < a ==> is_unicode_whitespace(#[trigger] s[i]);
        let b = choose|b: int|
            0 <= b < s.len() && !is_unicode_whitespace(s[b]) && forall|i: int|
                b < i < s.len() ==> is_unicode_whitespace(#[trigger] s[i]);
        s.subrange(a, b + 1)
    }
}

pub fn trim(s: &str) -> (r: String)
    ensures
        r@ == spec_trim(s@),
{
    let cs = chars_of(s);
    let n = cs.len();
    let mut a: usize = 0;
    while a < n && is_whitespace(cs[a])
        invariant
            a <= n,
            n == cs@.len(),
            cs@ == s@,
            forall|i: int| 0 <= i < a ==> is_unicode_whitespace(#[trigger] cs@[i]),
        decreases n - a,
    {
        a += 1;
    }
    if a == n {
        return String::new();
    }
    let mut b: usize = n - 1;
    while is_whitespace(cs[b])
        invariant
            a <= b < n,
            n == cs@.len(),
            !is_unicode_whitespace(cs@[a as int]),
            forall|i: int| b < i < n ==> is_unicode_whitespace(#[trigger] cs@[i]),
        decreases b,
    {
        b -= 1;
    }
    proof {
        let wa = choose|x: int|
            0 <= x < s@.len() && !is_unicode_whitespace(s@[x]) && forall|i: int|
                0 <= i < x ==> is_unicode_whitespace(#[trigger] s@[i]);
        let wb = choose|x: int|
            0 <= x < s@.len() && !is_unicode_whitespace(s@[x]) && forall|i: int|
                x < i < s@.len() ==> is_unicode_whitespace(#[trigger] s@[i]);
        assert(wa == a as int) by {
            if wa < a {
                assert(is_unicode_whitespace(cs@[wa]));
            }
            if a < wa {
                assert(is_unicode_whitespace(s@[a as int]));
            }
        }
        assert(wb == b as int) by {
            if wb < b {
                assert(is_unicode_whitespace(s@[b as int]));
            }
            if b < wb {
                assert(is_unicode_whitespace(cs@[wb]));
            }
        }
    }
    let mut out: Vec<char> = Vec::new();
    let mut i: usize = a;
    while i <= b
        invariant
            a <= i <= b + 1,
            b < n,
            n == cs@.len(),
            out@ == cs@.subrange(a as int, i as int),
        decreases b + 1 - i,
    {
        out.push(cs[i]);
        i += 1;
        assert(out@ =~= cs@.subrange(a as int, i as int));
    }
    string_of(&out)
}

/// ASCII-case-insensitive equality (the behaviour of `str::eq_ignore_ascii_case`).
pub open spec fn spec_eq_ignore_ascii_case(a: Seq<char>, b: Seq<char>) -> bool {
    spec_ascii_lower(a) == spec_ascii_lower(b)
}

pub fn eq_ignore_ascii_case(a: &str, b: &str) -> (r: bool)
    ensures
        r == spec_eq_ignore_ascii_case(a@, b@),
{
    let la = to_ascii_lowercase(a);
    let lb = to_ascii_lowercase(b);
    la == lb
}


/// Whether `s` begins with `prefix`.
pub fn starts_with_chars(s: &Vec<char>, prefix: &Vec<char>) -> (r: bool)
    ensures
        r == (prefix@.len() <= s@.len() && s@.subrange(0, prefix@.len() as int) == prefix@),
{
    if prefix.len() > s.len() {
        return false;
    }
    let mut i: usize = 0;
    while i < prefix.len()
        invariant
            i <= prefix.len() <= s.len(),
            s@.subrange(0, i as int) == prefix@.subrange(0, i as int),
        decreases prefix.len() - i,
    {
        if s[i] != prefix[i] {
            assert(s@.subrange(0, prefix@.len() as int)[i as int] != prefix@[i as int]);
            return false;
        }
        i += 1;
        assert(s@.subrange(0, i as int) =~= prefix@.subrange(0, i as int));
    }
    assert(prefix@.subrange(0, i as int) =~= prefix@);
    true
}

/// The characters of `cs` from index `start` on, as a `String`.
pub fn string_from(cs: &Vec<char>, start: usize) -> (s: String)
    requires
        start <= cs@.len(),
    ensures
        s@ == cs@.skip(start as int),
{
    let mut s = String::new();
    let mut i: usize = start;
    while i < cs.len()
        invariant
            start <= i <= cs.len(),
            s@ == cs@.subrange(start as int, i as int),
        decreases cs.len() - i,
    {
        s.push(cs[i]);
        i += 1;
        assert(s@ =~= cs@.subrange(start as int, i as int));
    }
    assert(cs@.subrange(start as int, cs@.len() as int) =~= cs@.skip(start as int));
    s
}

/// The characters of `cs` before index `end`, as a `String`.
pub fn string_before(cs: &Vec<char>, end: usize) -> (s: String)
    requires
        end <= cs@.len(),
    ensures
        s@ == cs@.take(end as int),
{
    let mut s = String::new();
    let mut i: usize = 0;
    while i < end
        invariant
            i <= end <= cs.len(),
            s@ == cs@.take(i as int),
        decreases end - i,
    {
        s.push(cs[i]);
        i += 1;
        assert(s@ =~= cs@.take(i as int));
    }
    s
}

/// Splits `s` around the first occurrence of `sep` (the behaviour of
/// `str::split_once` with a character).
pub fn split_once_char(s: &str, sep: char) -> (r: Option<(String, String)>)
    ensures
        r matches Some((a, b)) ==> s@ == a@ + seq![sep] + b@ && !a@.contains(sep),
        r is None ==> !s@.contains(sep),
{
    let cs = chars_of(s);
    let mut i: usize = 0;
    while i < cs.len()
        invariant
            i <= cs.len(),
            cs@ == s@,
            !cs@.take(i as int).contains(sep),
        decreases cs.len() - i,
    {
        if cs[i] == sep {
            let a = string_before(&cs, i);
            let b = string_from(&cs, i + 1);
            assert(s@ =~= a@ + seq![sep] + b@);
            return Some((a, b));
        }
        assert(cs@.take(i + 1) =~= cs@.take(i as int).push(cs@[i as int]));
        i += 1;
    }
    assert(cs@.take(i as int) =~= s@);
    None
}


/// The characters of `s` before the first `c` (all of `s` when there is none).
pub open spec fn take_until(s: Seq<char>, c: char) -> Seq<char>
    decreases s.len(),
{
    if s.len() == 0 {
        s
    } else if s[0] == c {
        Seq::empty()
    } else {
        seq![s[0]] + take_until(s.drop_first(), c)
    }
}

/// The part before a first separator is what `take_until` keeps.
pub proof fn lemma_take_until_split(a: Seq<char>, c: char, b: Seq<char>)
    requires
        !a.contains(c),
    ensures
        take_until(a + seq![c] + b, c) == a,
    decreases a.len(),
{
    if a.len() == 0 {
        assert((a + seq![c] + b)[0] == c);
    } else {
        assert(!a.drop_first().contains(c)) by {
            if a.drop_first().contains(c) {
                let k = choose|k: int| 0 <= k < a.drop_first().len() && a.drop_first()[k] == c;
                assert(a[k + 1] == c);
            }
        }
        assert((a + seq![c] + b).drop_first() =~= a.drop_first() + seq![c] + b);
        lemma_take_until_split(a.drop_first(), c, b);
        assert(a[0] != c) by {
            assert(a[0] == a[0]);
        }
        assert(seq![a[0]] + a.drop_first() =~= a);
    }
}

/// Without the separator, `take_until` keeps everything.
pub proof fn lemma_take_until_absent(s: Seq<char>, c: char)
    requires
        !s.contains(c),
    ensures
        take_until(s, c) == s,
    decreases s.len(),
{
    if s.len() > 0 {
        assert(!s.drop_first().contains(c)) by {
            if s.drop_first().contains(c) {
                let k = choose|k: int| 0 <= k < s.drop_first().len() && s.drop_first()[k] == c;
                assert(s[k + 1] == c);
            }
        }
        lemma_take_until_absent(s.drop_first(), c);
        assert(s[0] != c) by {
            assert(s.contains(s[0]) ==> s[0] != c);
        }
        assert(seq![s[0]] + s.drop_first() =~= s);
    }
}


pub open spec fn digit_value(c: char) -> nat {
    (c as u32 - '0' as u32) as nat
}

/// A non-empty run of ASCII digits.
pub open spec fn is_digit_seq(s: Seq<char>) -> bool {
    s.len() > 0 && forall|i: int| 0 <= i < s.len() ==> is_ascii_digit(#[trigger] s[i])
}

/// The decimal number written by a run of digits.
pub open spec fn digits_value(s: Seq<char>) -> nat
    decreases s.len(),
{
    if s.len() == 0 {
        0
    } else {
        digits_value(s.drop_last()) * 10 + digit_value(s.last())
    }
}

/// A run of digits at most `max`, as a number.
pub open spec fn spec_digits_upto(s: Seq<char>, max: nat) -> Option<nat> {
    if is_digit_seq(s) && digits_value(s) <= max {
        Some(digits_value(s))
    } else {
        None
    }
}

/// Reads `cs[start..]` as a run of digits whose value is at most `max`.
fn digits_upto(cs: &Vec<char>, start: usize, max: u64) -> (r: Option<u64>)
    requires
        start <= cs@.len(),
    ensures
        r matches Some(v) ==> spec_digits_upto(cs@.skip(start as int), max as nat) == Some(v as nat),
        r is None ==> spec_digits_upto(cs@.skip(start as int), max as nat) is None,
{
    let ghost d = cs@.skip(start as int);
    if start == cs.len() {
        return None;
    }
    let mut acc: u64 = 0;
    let mut over = false;
    let mut i: usize = start;
    while i < cs.len()
        invariant
            start <= i <= cs@.len(),
            d == cs@.skip(start as int),
            forall|k: int| start <= k < i ==> is_ascii_digit(#[trigger] cs@[k]),
            !over ==> acc == digits_value(d.take(i - start)) && acc <= max,
            over ==> digits_value(d.take(i - start)) > max,
        decreases cs.len() - i,
    {
        let c = cs[i];
        if !('0' <= c && c <= '9') {
            assert(!is_ascii_digit(d[i - start]));
            return None;
        }
        assert(d.take(i - start + 1).drop_last() =~= d.take(i - start));
        assert(d.take(i - start + 1).last() == c);
        let dv: u64 = ((c as u32) - ('0' as u32)) as u64;
        if !over {
            if dv > max {
                over = true;
            } else if acc > (max - dv) / 10 {
                over = true;
                assert(acc * 10 + dv > max) by (nonlinear_arith)
                    requires
                        acc > (max - dv) / 10,
                        dv <= max,
                ;
            } else {
                assert(acc * 10 + dv <= max) by (nonlinear_arith)
                    requires
                        acc <= (max - dv) / 10,
                        dv <= max,
                ;
                acc = acc * 10 + dv;
            }
        }
        i += 1;
    }
    assert(d.take(i - start) =~= d);
    if over {
        None
    } else {
        Some(acc)
    }
}


/// The digits of an unsigned number as written, after an optional `+`.
pub open spec fn unsigned_body(s: Seq<char>) -> Seq<char> {
    if s.len() > 0 && s[0] == '+' {
        s.drop_first()
    } else {
        s
    }
}

/// What `str::parse` gives for an unsigned integer type whose largest value is `max`.
pub open spec fn spec_parse_unsigned(s: Seq<char>, max: nat) -> Option<nat> {
    spec_digits_upto(unsigned_body(s), max)
}

fn parse_unsigned(s: &str, max: u64) -> (r: Option<u64>)
    ensures
        r matches Some(v) ==> spec_parse_unsigned(s@, max as nat) == Some(v as nat),
        r is None ==> spec_parse_unsigned(s@, max as nat) is None,
{
    let cs = chars_of(s);
    if cs.len() > 0 && cs[0] == '+' {
        assert(cs@.skip(1) =~= cs@.drop_first());
        digits_upto(&cs, 1, max)
    } else {
        assert(cs@.skip(0) =~= cs@);
        digits_upto(&cs, 0, max)
    }
}

/// `str::parse::<u8>`.
pub fn parse_u8(s: &str) -> (r: Option<u8>)
    ensures
        match spec_parse_unsigned(s@, 255) {
            Some(v) => r == Some(v as u8),
            None => r is None,
        },
{
    match parse_unsigned(s, 255) {
        Some(v) => Some(v as u8),
        None => None,
    }
}

/// `str::parse::<u16>`.
pub fn parse_u16(s: &str) -> (r: Option<u16>)
    ensures
        match spec_parse_unsigned(s@, 65535) {
            Some(v) => r == Some(v as u16),
            None => r is None,
        },
{
    match parse_unsigned(s, 65535) {
        Some(v) => Some(v as u16),
        None => None,
    }
}

/// What `str::parse::<i64>` gives: an optional sign, then digits, in range.
pub open spec fn spec_parse_i64(s: Seq<char>) -> Option<int> {
    if s.len() > 0 && s[0] == '-' {
        match spec_digits_upto(s.drop_first(), 0x8000_0000_0000_0000) {
            Some(v) => Some(-v),
            None => None,
        }
    } else {
        match spec_parse_unsigned(s, 0x7fff_ffff_ffff_ffff) {
            Some(v) => Some(v as int),
            None => None,
        }
    }
}

/// `str::parse::<i64>`.
pub fn parse_i64(s: &str) -> (r: Option<i64>)
    ensures
        match spec_parse_i64(s@) {
            Some(v) => r == Some(v as i64),
            None => r is None,
        },
{
    let cs = chars_of(s);
    if cs.len() > 0 && cs[0] == '-' {
        assert(cs@.skip(1) =~= cs@.drop_first());
        match digits_upto(&cs, 1, 0x8000_0000_0000_0000) {
            Some(v) => {
                if v == 0x8000_0000_0000_0000 {
                    Some(i64::MIN)
                } else {
                    Some(-(v as i64))
                }
            },
            None => None,
        }
    } else {
        match parse_unsigned(s, 0x7fff_ffff_ffff_ffff) {
            Some(v) => Some(v as i64),
            None => None,
        }
    }
}


/// The character sequences of a list of strings.
pub open spec fn strings_view(v: Seq<String>) -> Seq<Seq<char>> {
    v.map_values(|s: String| s@)
}

/// `take_until` keeps at most the whole sequence, and less when the
/// separator occurs.
pub proof fn lemma_take_until_len(s: Seq<char>, c: char)
    ensures
        take_until(s, c).len() <= s.len(),
        s.contains(c) ==> take_until(s, c).len() < s.len(),
    decreases s.len(),
{
    if s.len() > 0 && s[0] != c {
        lemma_take_until_len(s.drop_first(), c);
        if s.contains(c) {
            let k = choose|k: int| 0 <= k < s.len() && s[k] == c;
            assert(s.drop_first()[k - 1] == c);
        }
    }
}

/// The non-blank, trimmed items of a comma-separated list.
#[verifier::opaque]
pub open spec fn spec_comma_items(s: Seq<char>) -> Seq<Seq<char>>
    decreases s.len(),
{
    let head = take_until(s, ',');
    let first = nonblank_item(head);
    if s.contains(',') {
        proof {
            lemma_take_until_len(s, ',');
        }
        first + spec_comma_items(s.skip(head.len() + 1int))
    } else {
        first
    }
}

#[verifier::opaque]
pub open spec fn nonblank_item(a: Seq<char>) -> Seq<Seq<char>> {
    if spec_trim(a).len() > 0 {
        seq![spec_trim(a)]
    } else {
        Seq::empty()
    }
}

proof fn lemma_comma_items_split(a: Seq<char>, b: Seq<char>)
    requires
        !a.contains(','),
    ensures
        spec_comma_items(a + seq![','] + b) == nonblank_item(a) + spec_comma_items(b),
{
    reveal(spec_comma_items);
    let s = a + seq![','] + b;
    lemma_take_until_split(a, ',', b);
    assert(s[a.len() as int] == ',');
    assert(s.skip(a.len() + 1int) =~= b);
}

proof fn lemma_comma_items_absent(s: Seq<char>)
    requires
        !s.contains(','),
    ensures
        spec_comma_items(s) == nonblank_item(s),
{
    reveal(spec_comma_items);
    lemma_take_until_absent(s, ',');
}

/// The trimmed text, when it is not blank.
fn trimmed_nonblank(a: &str) -> (r: Option<String>)
    ensures
        r matches Some(t) ==> nonblank_item(a@) == seq![t@],
        r is None ==> nonblank_item(a@) == Seq::<Seq<char>>::empty(),
{
    reveal(nonblank_item);
    let t = trim(a);
    if t.as_str().is_empty() {
        None
    } else {
        Some(t)
    }
}

/// Splits at commas, trims each item and drops the blank ones.
pub fn comma_items(raw: &str) -> (v: Vec<String>)
    ensures
        strings_view(v@) == spec_comma_items(raw@),
{
    let mut out: Vec<String> = Vec::new();
    let mut rest = String::from_str(raw);
    loop
        invariant_except_break
            strings_view(out@) + spec_comma_items(rest@) == spec_comma_items(raw@),
        ensures
            strings_view(out@) == spec_comma_items(raw@),
        decreases rest@.len(),
    {
        let ghost before = strings_view(out@);
        match split_once_char(rest.as_str(), ',') {
            Some((a, b)) => {
                proof {
                    lemma_comma_items_split(a@, b@);
                }
                match trimmed_nonblank(a.as_str()) {
                    Some(t) => {
                        out.push(t);
                        assert(strings_view(out@) =~= before + nonblank_item(a@));
                    },
                    None => {
                        assert(before + nonblank_item(a@) =~= before);
                    },
                }
                assert(strings_view(out@) + spec_comma_items(b@) =~= before + spec_comma_items(rest@));
                assert(b@.len() < rest@.len());
                rest = b;
            },
            None => {
                proof {
                    lemma_comma_items_absent(rest@);
                }
                match trimmed_nonblank(rest.as_str()) {
                    Some(t) => {
                        out.push(t);
                        assert(strings_view(out@) =~= before + nonblank_item(rest@));
                    },
                    None => {
                        assert(before + nonblank_item(rest@) =~= before);
                    },
                }
                break;
            },
        }
    }
    out
}

/// A string with every whitespace character removed.
pub fn strip_whitespace(s: &str) -> (r: String)
    ensures
        r@ == s@.filter(|c: char| !is_unicode_whitespace(c)),
{
    let cs = chars_of(s);
    let mut out: Vec<char> = Vec::new();
    let mut i: usize = 0;
    while i < cs.len()
        invariant
            i <= cs.len(),
            cs@ == s@,
            out@ == s@.take(i as int).filter(|c: char| !is_unicode_whitespace(c)),
        decreases cs.len() - i,
    {
        proof {
            reveal(Seq::filter);
            assert(s@.take(i + 1).drop_last() =~= s@.take(i as int));
        }
        if !is_whitespace(cs[i]) {
            out.push(cs[i]);
        }
        i += 1;
    }
    assert(s@.take(cs.len() as int) =~= s@);
    string_of(&out)
}


/// The ASCII digit for `d < 10`.
pub open spec fn digit_char(d: nat) -> char {
    (48 + d) as char
}

/// The decimal digits of `n`, most significant first, no leading zeros.
pub open spec fn spec_decimal(n: nat) -> Seq<char>
    decreases n,
{
    if n < 10 {
        seq![digit_char(n)]
    } else {
        spec_decimal(n / 10).push(digit_char(n % 10))
    }
}

/// How `i64` is written in decimal (`to_string`): a `-` for negatives.
pub open spec fn spec_i64_text(n: int) -> Seq<char> {
    if n < 0 {
        seq!['-'] + spec_decimal((-n) as nat)
    } else {
        spec_decimal(n as nat)
    }
}

fn digit_char_exec(d: u64) -> (c: char)
    requires
        d < 10,
    ensures
        c == digit_char(d as nat),
{
    match d {
        0 => '0',
        1 => '1',
        2 => '2',
        3 => '3',
        4 => '4',
        5 => '5',
        6 => '6',
        7 => '7',
        8 => '8',
        _ => '9',
    }
}

fn push_decimal(n: u64, out: &mut String)
    ensures
        final(out)@ == old(out)@ + spec_decimal(n as nat),
    decreases n,
{
    if n >= 10 {
        push_decimal(n / 10, out);
    }
    let c = digit_char_exec(n % 10);
    out.push(c);
    assert(final(out)@ =~= old(out)@ + spec_decimal(n as nat));
}

/// An unsigned number in decimal.
pub fn u64_text(n: u64) -> (s: String)
    ensures
        s@ == spec_decimal(n as nat),
{
    let mut s = String::new();
    push_decimal(n, &mut s);
    assert(s@ =~= spec_decimal(n as nat));
    s
}

/// A signed number in decimal, as `i64::to_string` writes it.
pub fn i64_text(n: i64) -> (s: String)
    ensures
        s@ == spec_i64_text(n as int),
{
    let mut s = String::new();
    if n < 0 {
        s.push('-');
        let m: u64 = (0i128 - (n as i128)) as u64;
        push_decimal(m, &mut s);
    } else {
        push_decimal(n as u64, &mut s);
    }
    assert(s@ =~= spec_i64_text(n as int));
    s
}


/// Nothing but whitespace (empty once trimmed).
#[verifier::opaque]
pub open spec fn is_blank(s: Seq<char>) -> bool {
    spec_trim(s).len() == 0
}

/// Whether a text is blank.
pub fn is_blank_text(s: &str) -> (r: bool)
    ensures
        r == is_blank(s@),
{
    reveal(is_blank);
    let t = trim(s);
    t.as_str().is_empty()
}

} // verus!
