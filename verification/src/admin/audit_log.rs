//! The append-only admin audit log: only read here; every admin action
//! writes one row through the service edge.
use vstd::prelude::*;

verus! {

pub struct AuditLogRow {
    pub id: String,
    pub admin_id: String,
    pub action: String,
    pub old_value: Option<String>,
    pub new_value: Option<String>,
    pub ip_address: Option<String>,
    pub created_at: String,
}

} // verus!
