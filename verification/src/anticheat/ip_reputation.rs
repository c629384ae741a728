//! IP context: raises the bar for CAPTCHA, never blocks by itself.
use vstd::prelude::*;

verus! {

/// More than 5 accounts or more than 10 logins from one IP in the window.
pub fn ip_context_is_elevated(accounts_per_ip: i64, logins_per_ip: i64) -> (r: bool)
    ensures
        r == (accounts_per_ip > 5 || logins_per_ip > 10),
{
    accounts_per_ip > 5 || logins_per_ip > 10
}

} // verus!
