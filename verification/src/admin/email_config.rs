//! The SMTP settings an admin keeps in the runtime configuration.
use vstd::prelude::*;

use super::errors::{is_validation_failure, validation_failed, AdminError};

verus! {

pub struct UpdateSmtpConfigRequest {
    pub admin_password: String,
    pub smtp_email: String,
    pub app_password: String,
}

pub struct SendTestEmailRequest {
    pub admin_password: String,
    pub to: String,
}

/// A test email is sent only once both the address and the secret are saved.
pub fn smtp_config_ready(smtp_email: &str, smtp_secret: &str) -> (r: Result<(), AdminError>)
    ensures
        smtp_email@.len() > 0 && smtp_secret@.len() > 0 ==> r is Ok,
        !(smtp_email@.len() > 0 && smtp_secret@.len() > 0) ==> is_validation_failure(
            r,
            "SMTP config is not set yet."@,
        ),
{
    if smtp_email.is_empty() || smtp_secret.is_empty() {
        Err(validation_failed("SMTP config is not set yet."))
    } else {
        Ok(())
    }
}

/// What a failed test send is reported as.
pub fn test_send_failed() -> (e: AdminError)
    ensures
        e matches AdminError::ValidationFailed(m) && m@ == "Test email failed to send - check credentials."@,
{
    validation_failed("Test email failed to send - check credentials.")
}

} // verus!
