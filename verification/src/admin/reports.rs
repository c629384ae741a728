//! Bug reports and voice-abuse reports.
use vstd::prelude::*;

use super::errors::{is_validation_failure, validation_failed, AdminError};

verus! {

pub struct BugReportRow {
    pub id: String,
    pub user_id: String,
    pub title: String,
    pub description: Option<String>,
    pub screenshot_url: Option<String>,
    pub status: String,
    pub created_at: String,
}

pub struct UpdateReportStatusRequest {
    pub status: String,
}

pub struct VoiceAbuseReportRow {
    pub id: String,
    pub match_id: String,
    pub reporter_id: String,
    pub reported_id: String,
    pub reason: Option<String>,
    pub audio_buffer_url: Option<String>,
    pub status: String,
    pub created_at: String,
}

pub open spec fn is_report_status(s: Seq<char>) -> bool {
    s == "open"@ || s == "in_review"@ || s == "resolved"@
}

/// A report moves only between `open`, `in_review` and `resolved`.
pub fn validate_report_status(req: &UpdateReportStatusRequest) -> (r: Result<(), AdminError>)
    ensures
        is_report_status(req.status@) ==> r is Ok,
        !is_report_status(req.status@) ==> is_validation_failure(r, "Invalid status."@),
{
    let s = req.status.as_str();
    if s.eq("open") || s.eq("in_review") || s.eq("resolved") {
        Ok(())
    } else {
        Err(validation_failed("Invalid status."))
    }
}

} // verus!
