//! Credentials from an OAuth token, and how a failed token refresh is
//! reported.

use vstd::prelude::*;
use vstd::string::*;

use crate::credentials::Credentials;
use crate::error::{CliError, ExitCode};
use crate::text::{contains, contains_text};

verus! {

/// Lifetime assumed for a token whose expiry is already past or unknown.
pub const DEFAULT_EXPIRY_SECS: u64 = 3600;

/// Seconds until a new token expires: as reported, else the default.
pub open spec fn lifetime_secs(seconds_until_expiry: Option<u64>) -> u64 {
    match seconds_until_expiry {
        Some(s) => s,
        None => DEFAULT_EXPIRY_SECS,
    }
}

/// Credentials from a new token obtained at Unix time `now`, which expires
/// `seconds_until_expiry` seconds later (an hour when that is unknown).
pub fn credentials_from_token(
    access_token: String,
    refresh_token: String,
    seconds_until_expiry: Option<u64>,
    now: u64,
) -> (r: Credentials)
    requires
        now + lifetime_secs(seconds_until_expiry) <= u64::MAX,
    ensures
        r.access_token@ == access_token@,
        r.refresh_token@ == refresh_token@,
        r.expires_at == now + lifetime_secs(seconds_until_expiry),
{
    let secs = match seconds_until_expiry {
        Some(s) => s,
        None => DEFAULT_EXPIRY_SECS,
    };
    Credentials { access_token, refresh_token, expires_at: now + secs }
}

/// A refresh failure whose message points at the network.
pub open spec fn is_refresh_network_failure(detail: Seq<char>) -> bool {
    ||| contains_text(detail, "timed out"@)
    ||| contains_text(detail, "connection"@)
    ||| contains_text(detail, "dns"@)
    ||| contains_text(detail, "network"@)
}

/// Classify a failed token refresh by the text of its error: a network
/// problem, or else an authentication failure.
pub fn refresh_failure(detail: &str) -> (r: CliError)
    ensures
        is_refresh_network_failure(detail@) ==> r.code == ExitCode::NetworkError && r.message@
            == "Token refresh failed (network): "@ + detail@,
        !is_refresh_network_failure(detail@) ==> r.code == ExitCode::AuthError && r.message@
            == "Token refresh failed: "@ + detail@,
        r.source matches Some(s) && s@ == detail@,
{
    let (code, mut msg) = if contains(detail, "timed out") || contains(detail, "connection")
        || contains(detail, "dns") || contains(detail, "network") {
        (ExitCode::NetworkError, String::from_str("Token refresh failed (network): "))
    } else {
        (ExitCode::AuthError, String::from_str("Token refresh failed: "))
    };
    msg.append(detail);
    CliError::with_source(code, msg, String::from_str(detail))
}

} // verus!
