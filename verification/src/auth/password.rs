//! Argon2id password hashing (unique random salt per password) and verification.
use vstd::prelude::*;

use super::errors::AuthError;

use argon2::password_hash::rand_core::OsRng;
use argon2::password_hash::{PasswordHash, PasswordHasher, PasswordVerifier, SaltString};
use argon2::Argon2;

verus! {

/// Whether `plain` verifies against the PHC hash string `stored`.
pub uninterp spec fn spec_password_matches(plain: Seq<char>, stored: Seq<char>) -> bool;

/// `PasswordHash::new` on the stored string (an unparsable string never
/// verifies) and `Argon2::default().verify_password` on the plain text's
/// bytes. Named: `spec_password_matches`.
#[verifier::external_body]
fn argon2_verify(plain: &str, stored_hash: &str) -> (r: bool)
    ensures
        r == spec_password_matches(plain@, stored_hash@),
{
    let Ok(parsed) = PasswordHash::new(stored_hash) else { return false };
    Argon2::default().verify_password(plain.as_bytes(), &parsed).is_ok()
}

/// `Argon2::default().hash_password` with a fresh `SaltString::generate(OsRng)`
/// salt, rendered as a PHC string. The salt is random, so the string itself is
/// not stated; stated is what `PasswordVerifier::verify_password` is defined
/// to do: recomputing with the hash's own salt and parameters gives the same
/// output, so the string verifies against the same password. The crate
/// refuses only a password of more than `u32::MAX` bytes (the generated salt
/// is always a valid one), so a password of at most `0x3fff_ffff` characters
/// (at most four bytes each) always hashes.
#[verifier::external_body]
fn argon2_hash_random_salt(plain: &str) -> (r: Option<String>)
    ensures
        r matches Some(h) ==> spec_password_matches(plain@, h@),
        plain@.len() <= 0x3fff_ffff ==> r is Some,
{
    let salt = SaltString::generate(&mut OsRng);
    Argon2::default().hash_password(plain.as_bytes(), &salt).map(|h| h.to_string()).ok()
}

/// Hashes a password for storage; a hashing failure (only possible for a
/// password of more than `u32::MAX` bytes) is `Internal`.
pub fn hash_password(plain: &str) -> (r: Result<String, AuthError>)
    ensures
        plain@.len() <= 0x3fff_ffff ==> r is Ok,
        r matches Ok(h) ==> spec_password_matches(plain@, h@),
        r matches Err(e) ==> e == AuthError::Internal,
{
    match argon2_hash_random_salt(plain) {
        Some(h) => Ok(h),
        None => Err(AuthError::Internal),
    }
}

/// Checks a plain password against a stored hash.
pub fn verify_password(plain: &str, stored_hash: &str) -> (ok: bool)
    ensures
        ok == spec_password_matches(plain@, stored_hash@),
{
    argon2_verify(plain, stored_hash)
}

} // verus!
