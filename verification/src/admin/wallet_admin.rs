//! Payments in the panel: the transaction log pages, stuck payments, and
//! the payment configuration keys an admin may edit.
use vstd::prelude::*;

use super::errors::{is_validation_failure, validation_failed, AdminError};

verus! {

/// Rows per page of the panel's logs.
pub const PAGE_SIZE: i64 = 50;

/// A payment still pending after this long is reported as stuck.
pub const STUCK_THRESHOLD_MINUTES: i64 = 30;

pub struct PaymentTxRow {
    pub id: String,
    pub user_id: String,
    pub gateway: String,
    pub amount_pkr: i64,
    pub coins_credited: Option<i64>,
    pub status: String,
    pub created_at: String,
}

pub struct UpdatePaymentConfigRequest {
    /// Checked first: the admin's password again.
    pub admin_password: String,
    pub key: String,
    pub value: String,
}

pub struct UpdateCoinPackageRequest {
    pub admin_password: String,
    pub package_id: String,
    pub amount_pkr: i64,
    pub coins: i64,
    pub bonus_label: Option<String>,
    pub is_active: bool,
}

/// The offset of a 1-based page (pages below 1 read as the first).
pub fn page_offset(page: i64) -> (off: i64)
    requires
        page <= i64::MAX / PAGE_SIZE,
    ensures
        off == (if page < 1 {
            0
        } else {
            (page - 1) * PAGE_SIZE
        }),
        off >= 0,
{
    let p = if page < 1 {
        1
    } else {
        page
    };
    (p - 1) * PAGE_SIZE
}

pub open spec fn is_editable_payment_key(key: Seq<char>) -> bool {
    key == "jazzcash_api_key"@ || key == "jazzcash_merchant_id"@ || key == "jazzcash_secret"@ || key
        == "easypaisa_api_key"@ || key == "easypaisa_merchant_id"@ || key == "easypaisa_secret"@
        || key == "googlepay_api_key"@ || key == "googlepay_merchant_id"@ || key
        == "googlepay_secret"@ || key == "coin_rate_pkr"@
}

/// Only the known payment settings can be changed from the panel.
pub fn validate_payment_key(key: &str) -> (r: Result<(), AdminError>)
    ensures
        is_editable_payment_key(key@) ==> r is Ok,
        !is_editable_payment_key(key@) ==> is_validation_failure(r, "Unknown config key."@),
{
    if key.eq("jazzcash_api_key") || key.eq("jazzcash_merchant_id") || key.eq("jazzcash_secret")
        || key.eq("easypaisa_api_key") || key.eq("easypaisa_merchant_id") || key.eq(
        "easypaisa_secret",
    ) || key.eq("googlepay_api_key") || key.eq("googlepay_merchant_id") || key.eq(
        "googlepay_secret",
    ) || key.eq("coin_rate_pkr") {
        Ok(())
    } else {
        Err(validation_failed("Unknown config key."))
    }
}

} // verus!
