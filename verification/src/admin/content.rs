//! Static pages (privacy policy, about, support email, terms).
use vstd::prelude::*;

use super::errors::{is_validation_failure, validation_failed, AdminError};

verus! {

pub struct UpdateStaticPageRequest {
    pub key: String,
    pub content: String,
}

pub struct StaticPageRow {
    pub key: String,
    pub content: Option<String>,
    pub updated_by: Option<String>,
    pub updated_at: String,
}

pub open spec fn is_static_page_key(k: Seq<char>) -> bool {
    k == "privacy_policy"@ || k == "about"@ || k == "support_email"@ || k == "terms_of_service"@
}

/// Only the four known pages can be edited.
pub fn validate_page_key(key: &str) -> (r: Result<(), AdminError>)
    ensures
        is_static_page_key(key@) ==> r is Ok,
        !is_static_page_key(key@) ==> is_validation_failure(r, "Unknown content key."@),
{
    if key.eq("privacy_policy") || key.eq("about") || key.eq("support_email") || key.eq(
        "terms_of_service",
    ) {
        Ok(())
    } else {
        Err(validation_failed("Unknown content key."))
    }
}

} // verus!
