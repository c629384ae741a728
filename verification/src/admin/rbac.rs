//! The role table of the admin panel. Every admin endpoint checks it on the
//! server before doing anything: a hidden button is not the boundary.
use vstd::prelude::*;

use super::errors::AdminError;
use crate::auth::jwt::AccessClaims;

verus! {

/// The protected areas of the panel.
#[derive(Debug, Clone, Copy, PartialEq, Eq, Structural)]
pub enum AdminSection {
    UsersWrite,
    UsersReadSensitive,
    WalletPayments,
    ShopManagement,
    AntiCheat,
    Reports,
    Content,
    Config,
    AuditLogRead,
    RoleGrant,
}

pub open spec fn spec_section_allows(section: AdminSection, role: Seq<char>) -> bool {
    match section {
        AdminSection::UsersWrite => role == "super_admin"@ || role == "moderator"@,
        AdminSection::UsersReadSensitive => role == "super_admin"@ || role == "support_admin"@,
        AdminSection::WalletPayments => role == "super_admin"@ || role == "finance_admin"@,
        AdminSection::ShopManagement => role == "super_admin"@ || role == "finance_admin"@,
        AdminSection::AntiCheat => role == "super_admin"@ || role == "security_admin"@,
        AdminSection::Reports => role == "super_admin"@ || role == "support_admin"@,
        AdminSection::Content => role == "super_admin"@,
        AdminSection::Config => role == "super_admin"@ || role == "finance_admin"@,
        AdminSection::AuditLogRead => role == "super_admin"@ || role == "security_admin"@,
        AdminSection::RoleGrant => role == "super_admin"@,
    }
}

/// Whether the caller's role may use `section`; `Forbidden` otherwise.
pub fn require_role(claims: &AccessClaims, section: AdminSection) -> (r: Result<(), AdminError>)
    ensures
        spec_section_allows(section, claims.role@) <==> r is Ok,
        r is Err ==> r matches Err(AdminError::Forbidden),
{
    let role = claims.role.as_str();
    let allowed = match section {
        AdminSection::UsersWrite => role.eq("super_admin") || role.eq("moderator"),
        AdminSection::UsersReadSensitive => role.eq("super_admin") || role.eq("support_admin"),
        AdminSection::WalletPayments => role.eq("super_admin") || role.eq("finance_admin"),
        AdminSection::ShopManagement => role.eq("super_admin") || role.eq("finance_admin"),
        AdminSection::AntiCheat => role.eq("super_admin") || role.eq("security_admin"),
        AdminSection::Reports => role.eq("super_admin") || role.eq("support_admin"),
        AdminSection::Content => role.eq("super_admin"),
        AdminSection::Config => role.eq("super_admin") || role.eq("finance_admin"),
        AdminSection::AuditLogRead => role.eq("super_admin") || role.eq("security_admin"),
        AdminSection::RoleGrant => role.eq("super_admin"),
    };
    if allowed {
        Ok(())
    } else {
        Err(AdminError::Forbidden)
    }
}

/// `super_admin` may use every section, and only `super_admin` may grant roles.
pub proof fn lemma_super_admin_everywhere(section: AdminSection, role: Seq<char>)
    ensures
        spec_section_allows(section, "super_admin"@),
        spec_section_allows(AdminSection::RoleGrant, role) ==> role == "super_admin"@,
{
}

/// A plain `user` may use no section of the panel.
pub proof fn lemma_user_nowhere(section: AdminSection)
    ensures
        !spec_section_allows(section, "user"@),
{
    reveal_strlit("user");
    reveal_strlit("super_admin");
    reveal_strlit("moderator");
    reveal_strlit("support_admin");
    reveal_strlit("finance_admin");
    reveal_strlit("security_admin");
    assert("user"@.len() == 4);
    match section {
        AdminSection::UsersWrite => {},
        AdminSection::UsersReadSensitive => {},
        AdminSection::WalletPayments => {},
        AdminSection::ShopManagement => {},
        AdminSection::AntiCheat => {},
        AdminSection::Reports => {},
        AdminSection::Content => {},
        AdminSection::Config => {},
        AdminSection::AuditLogRead => {},
        AdminSection::RoleGrant => {},
    }
}

} // verus!
