//! Server-side configuration, read once at startup from the environment's
//! variables (given here as plain optional strings) with their defaults.
use vstd::prelude::*;

use crate::text::{
    comma_items, is_unicode_whitespace, parse_i64, parse_u16, spec_comma_items, spec_parse_i64,
    spec_parse_unsigned, strings_view, strip_whitespace,
};

verus! {

/// Never serialised or shown to a browser.
pub struct AppConfig {
    pub database_url: String,
    pub jwt_secret: String,
    pub jwt_access_ttl_minutes: i64,
    pub jwt_refresh_ttl_days: i64,
    pub smtp_host: String,
    pub smtp_user: String,
    pub smtp_pass: String,
    pub smtp_port: Option<u16>,
    pub frontend_base_url: String,
    pub jazzcash_api_key: Option<String>,
    pub easypaisa_api_key: Option<String>,
    pub googlepay_api_key: Option<String>,
    pub port: u16,
    /// IPs or CIDR ranges; empty means the API is public.
    pub ip_allowlist: Vec<String>,
}

/// The environment as configuration reads it: each variable's value, if set.
pub struct ConfigVars {
    pub database_url: Option<String>,
    pub jwt_secret: Option<String>,
    pub jwt_access_ttl_min: Option<String>,
    pub jwt_refresh_ttl_days: Option<String>,
    pub smtp_host: Option<String>,
    pub smtp_user: Option<String>,
    pub smtp_pass: Option<String>,
    pub smtp_port: Option<String>,
    pub frontend_base_url: Option<String>,
    pub jazzcash_api_key: Option<String>,
    pub easypaisa_api_key: Option<String>,
    pub googlepay_api_key: Option<String>,
    pub port: Option<String>,
    pub ip_allowlist: Option<String>,
}

/// A numeric variable that does not read as a number.
#[derive(Debug, Clone, Copy, PartialEq, Eq, Structural)]
pub enum ConfigError {
    InvalidAccessTtl,
    InvalidRefreshTtl,
    InvalidPort,
}

pub open spec fn or_default(v: Option<String>, d: Seq<char>) -> Seq<char> {
    match v {
        Some(s) => s@,
        None => d,
    }
}

fn value_or(v: Option<String>, d: &str) -> (r: String)
    ensures
        r@ == or_default(v, d@),
{
    match v {
        Some(s) => s,
        None => String::from_str(d),
    }
}

pub open spec fn opt_view(v: Option<String>) -> Option<Seq<char>> {
    match v {
        Some(s) => Some(s@),
        None => None,
    }
}

/// The configuration the variables describe. `Err` names the first of the
/// access-token lifetime, refresh-token lifetime and port (in that order)
/// that is set, or defaulted, to something that is not a number of its type.
/// A missing `JWT_SECRET` is refused before this is called.
pub fn config_from_vars(vars: ConfigVars) -> (r: Result<AppConfig, ConfigError>)
    requires
        vars.jwt_secret is Some,
    ensures
        spec_parse_i64(or_default(vars.jwt_access_ttl_min, "15"@)) is None ==> r
            == Err::<AppConfig, ConfigError>(ConfigError::InvalidAccessTtl),
        spec_parse_i64(or_default(vars.jwt_access_ttl_min, "15"@)) is Some && spec_parse_i64(
            or_default(vars.jwt_refresh_ttl_days, "30"@),
        ) is None ==> r == Err::<AppConfig, ConfigError>(ConfigError::InvalidRefreshTtl),
        spec_parse_i64(or_default(vars.jwt_access_ttl_min, "15"@)) is Some && spec_parse_i64(
            or_default(vars.jwt_refresh_ttl_days, "30"@),
        ) is Some && spec_parse_unsigned(or_default(vars.port, "8080"@), 65535) is None ==> r
            == Err::<AppConfig, ConfigError>(ConfigError::InvalidPort),
        r matches Ok(c) ==> {
            &&& c.database_url@ == or_default(vars.database_url, "sqlite::memory:"@)
            &&& c.jwt_secret@ == vars.jwt_secret->0@
            &&& Some(c.jwt_access_ttl_minutes as int) == spec_parse_i64(
                or_default(vars.jwt_access_ttl_min, "15"@),
            )
            &&& Some(c.jwt_refresh_ttl_days as int) == spec_parse_i64(
                or_default(vars.jwt_refresh_ttl_days, "30"@),
            )
            &&& c.smtp_host@ == or_default(vars.smtp_host, ""@)
            &&& c.smtp_user@ == or_default(vars.smtp_user, ""@)
            &&& c.smtp_pass@ == or_default(vars.smtp_pass, ""@).filter(
                |ch: char| !is_unicode_whitespace(ch),
            )
            &&& c.smtp_port == match vars.smtp_port {
                Some(s) => match spec_parse_unsigned(s@, 65535) {
                    Some(v) => Some(v as u16),
                    None => None,
                },
                None => None,
            }
            &&& c.frontend_base_url@ == or_default(vars.frontend_base_url, "http://localhost:5173"@)
            &&& opt_view(c.jazzcash_api_key) == opt_view(vars.jazzcash_api_key)
            &&& opt_view(c.easypaisa_api_key) == opt_view(vars.easypaisa_api_key)
            &&& opt_view(c.googlepay_api_key) == opt_view(vars.googlepay_api_key)
            &&& Some(c.port as nat) == spec_parse_unsigned(or_default(vars.port, "8080"@), 65535)
            &&& strings_view(c.ip_allowlist@) == spec_comma_items(or_default(vars.ip_allowlist, ""@))
        },
        (spec_parse_i64(or_default(vars.jwt_access_ttl_min, "15"@)) is Some && spec_parse_i64(
            or_default(vars.jwt_refresh_ttl_days, "30"@),
        ) is Some && spec_parse_unsigned(or_default(vars.port, "8080"@), 65535) is Some) ==> r is Ok,
{
    let ghost v = vars;
    let ConfigVars {
        database_url,
        jwt_secret,
        jwt_access_ttl_min,
        jwt_refresh_ttl_days,
        smtp_host,
        smtp_user,
        smtp_pass,
        smtp_port,
        frontend_base_url,
        jazzcash_api_key,
        easypaisa_api_key,
        googlepay_api_key,
        port,
        ip_allowlist,
    } = vars;
    let database_url = value_or(database_url, "sqlite::memory:");
    let jwt_secret = match jwt_secret {
        Some(s) => s,
        None => String::new(),
    };
    let access_text = value_or(jwt_access_ttl_min, "15");
    let jwt_access_ttl_minutes = match parse_i64(access_text.as_str()) {
        Some(x) => x,
        None => {
            return Err(ConfigError::InvalidAccessTtl);
        },
    };
    let refresh_text = value_or(jwt_refresh_ttl_days, "30");
    let jwt_refresh_ttl_days = match parse_i64(refresh_text.as_str()) {
        Some(x) => x,
        None => {
            return Err(ConfigError::InvalidRefreshTtl);
        },
    };
    let smtp_host = value_or(smtp_host, "");
    let smtp_user = value_or(smtp_user, "");
    let pass_raw = value_or(smtp_pass, "");
    let smtp_pass = strip_whitespace(pass_raw.as_str());
    let smtp_port = match smtp_port {
        Some(s) => parse_u16(s.as_str()),
        None => None,
    };
    let frontend_base_url = value_or(frontend_base_url, "http://localhost:5173");
    let port_text = value_or(port, "8080");
    let port = match parse_u16(port_text.as_str()) {
        Some(p) => p,
        None => {
            return Err(ConfigError::InvalidPort);
        },
    };
    let list_text = value_or(ip_allowlist, "");
    let ip_allowlist = comma_items(list_text.as_str());
    Ok(AppConfig {
        database_url,
        jwt_secret,
        jwt_access_ttl_minutes,
        jwt_refresh_ttl_days,
        smtp_host,
        smtp_user,
        smtp_pass,
        smtp_port,
        frontend_base_url,
        jazzcash_api_key,
        easypaisa_api_key,
        googlepay_api_key,
        port,
        ip_allowlist,
    })
}

} // verus!
