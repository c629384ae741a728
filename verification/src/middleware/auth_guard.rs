//! Every protected endpoint re-validates the caller: the token comes from the
//! `Authorization: Bearer` header, and admin routes also check the role.
use vstd::prelude::*;

use crate::auth::errors::AuthError;
use crate::auth::jwt::AccessClaims;
use crate::text::{chars_of, starts_with_chars, string_from};

verus! {

pub open spec fn bearer_prefix() -> Seq<char> {
    seq!['B', 'e', 'a', 'r', 'e', 'r', ' ']
}

pub open spec fn spec_bearer_token(header: Option<Seq<char>>) -> Option<Seq<char>> {
    match header {
        Some(h) => if h.len() >= 7 && h.subrange(0, 7) == bearer_prefix() {
            Some(h.skip(7))
        } else {
            None
        },
        None => None,
    }
}

/// The token of an `Authorization` header of the form `Bearer <token>`;
/// a missing header or any other form is `Unauthorized`.
pub fn bearer_token(header: Option<&str>) -> (r: Result<String, AuthError>)
    ensures
        match spec_bearer_token(
            match header {
                Some(h) => Some(h@),
                None => None,
            },
        ) {
            Some(t) => r matches Ok(s) && s@ == t,
            None => r == Err::<String, AuthError>(AuthError::Unauthorized),
        },
{
    match header {
        None => Err(AuthError::Unauthorized),
        Some(h) => {
            let cs = chars_of(h);
            let mut prefix: Vec<char> = Vec::new();
            prefix.push('B');
            prefix.push('e');
            prefix.push('a');
            prefix.push('r');
            prefix.push('e');
            prefix.push('r');
            prefix.push(' ');
            assert(prefix@ =~= bearer_prefix());
            if starts_with_chars(&cs, &prefix) {
                Ok(string_from(&cs, 7))
            } else {
                Err(AuthError::Unauthorized)
            }
        },
    }
}

pub open spec fn role_listed(role: Seq<char>, allowed: Seq<&str>) -> bool {
    exists|i: int| 0 <= i < allowed.len() && (#[trigger] allowed[i])@ == role
}

/// Admin-only routes: the caller's role must be one of `allowed`.
pub fn require_role(claims: &AccessClaims, allowed: &[&str]) -> (r: Result<(), AuthError>)
    ensures
        role_listed(claims.role@, allowed@) ==> r is Ok,
        !role_listed(claims.role@, allowed@) ==> r == Err::<(), AuthError>(AuthError::Unauthorized),
{
    let role = claims.role.as_str();
    let mut i: usize = 0;
    while i < allowed.len()
        invariant
            i <= allowed@.len(),
            role@ == claims.role@,
            forall|k: int| 0 <= k < i ==> (#[trigger] allowed@[k])@ != claims.role@,
        decreases allowed.len() - i,
    {
        if allowed[i].eq(role) {
            return Ok(());
        }
        i += 1;
    }
    Err(AuthError::Unauthorized)
}

} // verus!
