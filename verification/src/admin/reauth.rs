//! Sensitive actions (payment and SMTP configuration, manual wallet
//! adjustments, role changes) ask for the admin's password again right
//! before they run.
use vstd::prelude::*;

use super::errors::AdminError;
use crate::auth::password::{spec_password_matches, verify_password};

verus! {

/// `Unauthorized` when the admin's account has no stored hash any more,
/// `ReauthFailed` when the submitted password does not match it.
pub fn reauth_check(stored_hash: Option<&str>, submitted_password: &str) -> (r: Result<(), AdminError>)
    ensures
        stored_hash is None ==> r matches Err(AdminError::Unauthorized),
        stored_hash matches Some(h) ==> (spec_password_matches(submitted_password@, h@) <==> r is Ok),
        stored_hash matches Some(h) && !spec_password_matches(submitted_password@, h@) ==> r matches Err(
            AdminError::ReauthFailed,
        ),
{
    match stored_hash {
        None => Err(AdminError::Unauthorized),
        Some(hash) => {
            if verify_password(submitted_password, hash) {
                Ok(())
            } else {
                Err(AdminError::ReauthFailed)
            }
        },
    }
}

} // verus!
