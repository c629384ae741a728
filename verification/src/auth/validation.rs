//! Format rules for usernames, emails and passwords, with the reserved-name
//! and common-password blocklists. The patterns are matched by `regex`.
use vstd::prelude::*;

use super::errors::AuthError;
use crate::text::{all_ascii, is_ascii_alnum, is_ascii_digit, spec_ascii_lower};
use crate::text::{chars_of, is_ascii_lower, is_ascii_upper};

use regex::Regex;

verus! {

pub open spec fn is_username_char(c: char) -> bool {
    is_ascii_alnum(c) || c == '_'
}

/// `^[a-zA-Z0-9_]{3,20}$`: 3 to 20 letters, digits or underscores.
pub open spec fn spec_username_shape(s: Seq<char>) -> bool {
    3 <= s.len() <= 20 && forall|i: int| 0 <= i < s.len() ==> is_username_char(#[trigger] s[i])
}

/// Usernames blocked outright (compared in lower case).
pub open spec fn spec_reserved_name(s: Seq<char>) -> bool {
    s == "admin"@ || s == "administrator"@ || s == "support"@ || s == "system"@ || s == "root"@
        || s == "api"@ || s == "moderator"@ || s == "owner"@ || s == "chess"@ || s == "official"@
        || s == "chessking"@
}

/// Stems of the admin/staff pattern.
pub open spec fn spec_reserved_stem(s: Seq<char>) -> bool {
    s == "admin"@ || s == "administrator"@ || s == "support"@ || s == "system"@ || s == "root"@
        || s == "moderator"@ || s == "owner"@ || s == "official"@ || s == "chessking"@
}

/// What may follow a reserved stem: only underscores and digits (`admin123`,
/// `root_`), or an underscore and then any username characters
/// (`support_team`). Ordinary words that merely start with a stem
/// (`rootbeer`, `supporter`) are not covered.
pub open spec fn spec_reserved_suffix(t: Seq<char>) -> bool {
    (forall|i: int| 0 <= i < t.len() ==> (t[i] == '_' || is_ascii_digit(#[trigger] t[i]))) || (t.len()
        > 0 && t[0] == '_' && forall|i: int| 0 <= i < t.len() ==> is_username_char(#[trigger] t[i]))
}

/// `(?i)^(admin|administrator|support|system|root|moderator|owner|official|chessking)([_0-9]*|_[a-zA-Z0-9_]*)$`
/// on ASCII text: a stem (any letter case) followed by a reserved suffix.
pub open spec fn spec_reserved_pattern(s: Seq<char>) -> bool {
    exists|k: int|
        0 <= k <= s.len() && spec_reserved_stem(spec_ascii_lower(#[trigger] s.take(k)))
            && spec_reserved_suffix(s.skip(k))
}

pub open spec fn is_email_local_char(c: char) -> bool {
    is_ascii_alnum(c) || c == '.' || c == '!' || c == '#' || c == '$' || c == '%' || c == '&' || c
        == '\'' || c == '*' || c == '+' || c == '/' || c == '=' || c == '?' || c == '^' || c == '_'
        || c == '`' || c == '{' || c == '|' || c == '}' || c == '~' || c == '-'
}

/// Splits on every '.', keeping empty parts.
pub open spec fn split_dots(s: Seq<char>) -> Seq<Seq<char>>
    decreases s.len(),
{
    if s.len() == 0 {
        seq![Seq::empty()]
    } else {
        let parts = split_dots(s.drop_last());
        if s.last() == '.' {
            parts.push(Seq::empty())
        } else {
            parts.update(parts.len() - 1, parts.last().push(s.last()))
        }
    }
}

/// `[a-zA-Z0-9](?:[a-zA-Z0-9-]{0,61}[a-zA-Z0-9])?`: 1 to 63 letters, digits
/// or hyphens, starting and ending with a letter or digit.
pub open spec fn is_domain_label(l: Seq<char>) -> bool {
    &&& 1 <= l.len() <= 63
    &&& is_ascii_alnum(l[0])
    &&& is_ascii_alnum(l.last())
    &&& forall|i: int| 0 <= i < l.len() ==> is_ascii_alnum(#[trigger] l[i]) || l[i] == '-'
}

/// The email pattern: a non-empty local part of allowed characters, '@', then
/// at least two dot-separated domain labels.
pub open spec fn spec_email_shape(s: Seq<char>) -> bool {
    exists|at: int|
        0 < at < s.len() && #[trigger] s[at] == '@' && (forall|i: int|
            0 <= i < at ==> is_email_local_char(#[trigger] s[i])) && split_dots(s.skip(at + 1)).len()
            >= 2 && (forall|k: int|
            0 <= k < split_dots(s.skip(at + 1)).len() ==> is_domain_label(
                #[trigger] split_dots(s.skip(at + 1))[k],
            ))
}

/// Common leaked passwords (compared in lower case).
pub open spec fn spec_common_password(s: Seq<char>) -> bool {
    s == "password"@ || s == "password1"@ || s == "12345678"@ || s == "123456789"@ || s
        == "qwerty123"@ || s == "letmein1"@ || s == "welcome1"@ || s == "admin123"@ || s
        == "iloveyou1"@ || s == "football1"@ || s == "monkey123"@ || s == "dragon123"@ || s
        == "master123"@ || s == "abc12345"@ || s == "passw0rd"@ || s == "sunshine1"@ || s
        == "princess1"@ || s == "starwars1"@ || s == "trustno1"@ || s == "superman1"@
}

/// Unicode lower-casing as `str::to_lowercase` performs it.
pub uninterp spec fn spec_to_lowercase(s: Seq<char>) -> Seq<char>;

/// `str::to_lowercase`. On ASCII text it maps exactly `A`-`Z` to `a`-`z`
/// (Unicode lower-casing agrees with ASCII there); what it does to other
/// characters is only named, not stated.
#[verifier::external_body]
pub fn to_lowercase(s: &str) -> (r: String)
    ensures
        r@ == spec_to_lowercase(s@),
        all_ascii(s@) ==> r@ == spec_ascii_lower(s@),
{
    s.to_lowercase()
}

/// `Regex::is_match` with `^[a-zA-Z0-9_]{3,20}$`.
#[verifier::external_body]
fn username_pattern_matches(username: &str) -> (r: bool)
    ensures
        r == spec_username_shape(username@),
{
    Regex::new(r"^[a-zA-Z0-9_]{3,20}$").unwrap().is_match(username)
}

/// `Regex::is_match` with the case-insensitive admin/staff pattern; stated
/// for ASCII input (the only input it receives), where case folding is
/// ASCII case folding.
#[verifier::external_body]
fn reserved_pattern_matches(username: &str) -> (r: bool)
    ensures
        all_ascii(username@) ==> r == spec_reserved_pattern(username@),
{
    Regex::new(
        r"(?i)^(admin|administrator|support|system|root|moderator|owner|official|chessking)([_0-9]*|_[a-zA-Z0-9_]*)$",
    ).unwrap().is_match(username)
}

/// `Regex::is_match` with the email pattern
/// `^[a-zA-Z0-9.!#$%&'*+/=?^_`{|}~-]+@[a-zA-Z0-9](?:[a-zA-Z0-9-]{0,61}[a-zA-Z0-9])?(?:\.[a-zA-Z0-9](?:[a-zA-Z0-9-]{0,61}[a-zA-Z0-9])?)+$`.
#[verifier::external_body]
fn email_pattern_matches(email: &str) -> (r: bool)
    ensures
        r == spec_email_shape(email@),
{
    Regex::new(
        r"^[a-zA-Z0-9.!#$%&'*+/=?^_`{|}~-]+@[a-zA-Z0-9](?:[a-zA-Z0-9-]{0,61}[a-zA-Z0-9])?(?:\.[a-zA-Z0-9](?:[a-zA-Z0-9-]{0,61}[a-zA-Z0-9])?)+$",
    ).unwrap().is_match(email)
}

pub open spec fn spec_validate_username(s: Seq<char>) -> Result<(), AuthError> {
    if !spec_username_shape(s) {
        Err(AuthError::UsernameFormatInvalid)
    } else if spec_reserved_name(spec_ascii_lower(s)) || spec_reserved_pattern(s) {
        Err(AuthError::ReservedUsername)
    } else {
        Ok(())
    }
}

fn is_reserved_name(lower: &str) -> (r: bool)
    ensures
        r == spec_reserved_name(lower@),
{
    lower.eq("admin") || lower.eq("administrator") || lower.eq("support") || lower.eq("system")
        || lower.eq("root") || lower.eq("api") || lower.eq("moderator") || lower.eq("owner")
        || lower.eq("chess") || lower.eq("official") || lower.eq("chessking")
}

fn is_common_password(lower: &str) -> (r: bool)
    ensures
        r == spec_common_password(lower@),
{
    lower.eq("password") || lower.eq("password1") || lower.eq("12345678") || lower.eq("123456789")
        || lower.eq("qwerty123") || lower.eq("letmein1") || lower.eq("welcome1") || lower.eq(
        "admin123",
    ) || lower.eq("iloveyou1") || lower.eq("football1") || lower.eq("monkey123") || lower.eq(
        "dragon123",
    ) || lower.eq("master123") || lower.eq("abc12345") || lower.eq("passw0rd") || lower.eq(
        "sunshine1",
    ) || lower.eq("princess1") || lower.eq("starwars1") || lower.eq("trustno1") || lower.eq(
        "superman1",
    )
}

proof fn lemma_username_shape_is_ascii(s: Seq<char>)
    requires
        spec_username_shape(s),
    ensures
        all_ascii(s),
{
    assert forall|i: int| 0 <= i < s.len() implies crate::text::is_ascii_char(#[trigger] s[i]) by {
        assert(is_username_char(s[i]));
    }
}

/// Username: 3-20 letters, digits or underscores, and not reserved (neither a
/// reserved name in any case, nor an admin/staff stem followed by digits and
/// underscores, or by an underscore and more username characters).
pub fn validate_username(username: &str) -> (r: Result<(), AuthError>)
    ensures
        r == spec_validate_username(username@),
{
    if !username_pattern_matches(username) {
        return Err(AuthError::UsernameFormatInvalid);
    }
    proof {
        lemma_username_shape_is_ascii(username@);
    }
    let lower = to_lowercase(username);
    if is_reserved_name(lower.as_str()) || reserved_pattern_matches(username) {
        return Err(AuthError::ReservedUsername);
    }
    Ok(())
}

/// Email: the pattern described at `spec_email_shape`.
pub fn validate_email(email: &str) -> (r: Result<(), AuthError>)
    ensures
        r == if spec_email_shape(email@) {
            Ok::<(), AuthError>(())
        } else {
            Err(AuthError::EmailFormatInvalid)
        },
{
    if !email_pattern_matches(email) {
        return Err(AuthError::EmailFormatInvalid);
    }
    Ok(())
}

pub open spec fn has_upper(s: Seq<char>) -> bool {
    exists|i: int| 0 <= i < s.len() && is_ascii_upper(#[trigger] s[i])
}

pub open spec fn has_lower(s: Seq<char>) -> bool {
    exists|i: int| 0 <= i < s.len() && is_ascii_lower(#[trigger] s[i])
}

pub open spec fn has_digit(s: Seq<char>) -> bool {
    exists|i: int| 0 <= i < s.len() && is_ascii_digit(#[trigger] s[i])
}

/// Password rule: at least 8 characters, at least one ASCII upper-case letter,
/// one lower-case letter and one digit, and not a common password (in lower case).
pub open spec fn spec_validate_password(s: Seq<char>) -> Result<(), AuthError> {
    if s.len() < 8 {
        Err(AuthError::PasswordTooWeak)
    } else if !(has_upper(s) && has_lower(s) && has_digit(s)) {
        Err(AuthError::PasswordTooWeak)
    } else if spec_common_password(spec_to_lowercase(s)) {
        Err(AuthError::PasswordTooWeak)
    } else {
        Ok(())
    }
}

pub fn validate_password(password: &str) -> (r: Result<(), AuthError>)
    ensures
        r == spec_validate_password(password@),
{
    let cs = chars_of(password);
    if cs.len() < 8 {
        return Err(AuthError::PasswordTooWeak);
    }
    let mut up = false;
    let mut low = false;
    let mut dig = false;
    let mut k: usize = 0;
    while k < cs.len()
        invariant
            cs@ == password@,
            k <= cs.len(),
            up == exists|i: int| 0 <= i < k && is_ascii_upper(#[trigger] password@[i]),
            low == exists|i: int| 0 <= i < k && is_ascii_lower(#[trigger] password@[i]),
            dig == exists|i: int| 0 <= i < k && is_ascii_digit(#[trigger] password@[i]),
        decreases cs.len() - k,
    {
        let c = cs[k];
        proof {
            assert(password@[k as int] == c);
        }
        if 'A' <= c && c <= 'Z' {
            up = true;
        }
        if 'a' <= c && c <= 'z' {
            low = true;
        }
        if '0' <= c && c <= '9' {
            dig = true;
        }
        k += 1;
    }
    if !(up && low && dig) {
        return Err(AuthError::PasswordTooWeak);
    }
    let lower = to_lowercase(password);
    if is_common_password(lower.as_str()) {
        return Err(AuthError::PasswordTooWeak);
    }
    Ok(())
}

pub open spec fn spec_validate_registration(
    username: Seq<char>,
    email: Seq<char>,
    password: Seq<char>,
) -> Result<(), AuthError> {
    if spec_validate_username(username) is Err {
        spec_validate_username(username)
    } else if !spec_email_shape(email) {
        Err(AuthError::EmailFormatInvalid)
    } else {
        spec_validate_password(password)
    }
}

/// Registration format checks, in order: username, then email, then password;
/// the first failure is reported.
pub fn validate_registration(username: &str, email: &str, password: &str) -> (r: Result<
    (),
    AuthError,
>)
    ensures
        r == spec_validate_registration(
            username@,
            email@,
            password@,
        ),
{
    validate_username(username)?;
    validate_email(email)?;
    validate_password(password)
}

/// What an accepted password has: at least 8 characters, an ASCII upper-case
/// letter, an ASCII lower-case letter and an ASCII digit, and it is not a
/// common password; and every such password is accepted.
pub proof fn lemma_password_requirements(s: Seq<char>)
    ensures
        spec_validate_password(s) is Ok ==> {
            &&& s.len() >= 8
            &&& exists|i: int| 0 <= i < s.len() && 'A' <= #[trigger] s[i] <= 'Z'
            &&& exists|i: int| 0 <= i < s.len() && 'a' <= #[trigger] s[i] <= 'z'
            &&& exists|i: int| 0 <= i < s.len() && '0' <= #[trigger] s[i] <= '9'
            &&& !spec_common_password(spec_to_lowercase(s))
        },
        ({
            &&& s.len() >= 8
            &&& exists|i: int| 0 <= i < s.len() && 'A' <= #[trigger] s[i] <= 'Z'
            &&& exists|i: int| 0 <= i < s.len() && 'a' <= #[trigger] s[i] <= 'z'
            &&& exists|i: int| 0 <= i < s.len() && '0' <= #[trigger] s[i] <= '9'
            &&& !spec_common_password(spec_to_lowercase(s))
        }) ==> spec_validate_password(s) is Ok,
        !(exists|i: int| 0 <= i < s.len() && '0' <= #[trigger] s[i] <= '9') ==> spec_validate_password(s)
            == Err::<(), AuthError>(AuthError::PasswordTooWeak),
{
}

} // verus!
