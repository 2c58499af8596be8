//! OAuth credentials kept between runs, and when they count as expired.

use vstd::prelude::*;
use vstd::string::*;

use crate::error::{CliError, ExitCode};

verus! {

/// OAuth credentials persisted between CLI invocations.
#[derive(Debug, Clone)]
pub struct Credentials {
    pub access_token: String,
    pub refresh_token: String,
    /// Unix timestamp (seconds) at which the access token expires.
    pub expires_at: u64,
}

/// Seconds before the recorded expiry at which a token is already treated as
/// expired.
pub const EXPIRY_MARGIN_SECS: u64 = 60;

/// Credentials count as expired at `now` once fewer than the margin's seconds
/// are left: `now + 60 >= expires_at`.
pub open spec fn expired_at(expires_at: u64, now: u64) -> bool {
    now + EXPIRY_MARGIN_SECS >= expires_at
}

#[verifier::external_type_specification]
#[verifier::external_body]
pub struct ExSystemTime(std::time::SystemTime);

#[verifier::external_type_specification]
#[verifier::external_body]
pub struct ExSystemTimeError(std::time::SystemTimeError);

/// `SystemTime::now`: the current time of the system clock. Nothing is
/// claimed of the value.
#[verifier::external_body]
fn system_time_now() -> std::time::SystemTime {
    std::time::SystemTime::now()
}

/// `SystemTime::duration_since(UNIX_EPOCH)`: the time elapsed since the Unix
/// epoch, or an error when the clock reads earlier than the epoch. Nothing is
/// claimed of the value.
#[verifier::external_body]
fn duration_since_epoch(t: &std::time::SystemTime) -> Result<
    std::time::Duration,
    std::time::SystemTimeError,
> {
    t.duration_since(std::time::UNIX_EPOCH)
}

/// `Duration::as_secs`: the whole seconds of a duration. Nothing is claimed
/// of the value, since a `Duration` is opaque here.
#[verifier::external_body]
fn duration_secs(d: &std::time::Duration) -> u64 {
    d.as_secs()
}

/// Seconds since the Unix epoch by the system clock, or 0 when the clock reads
/// earlier than the epoch. The value depends on the clock alone; nothing more
/// is stated of it.
pub fn now_secs() -> u64 {
    let now = system_time_now();
    match duration_since_epoch(&now) {
        Ok(d) => duration_secs(&d),
        Err(_) => 0,
    }
}

impl Credentials {
    /// Whether the access token counts as expired at Unix time `now` (with a
    /// 60-second buffer).
    pub fn is_expired_at(&self, now: u64) -> (r: bool)
        ensures
            r == expired_at(self.expires_at, now),
            r <==> self.expires_at <= now as int + 60,
    {
        if self.expires_at <= EXPIRY_MARGIN_SECS {
            true
        } else {
            now >= self.expires_at - EXPIRY_MARGIN_SECS
        }
    }

    /// Returns `true` if the access token has expired (with a 60-second
    /// buffer), by the system clock. Whatever the clock reads, a token that
    /// expires within the first minute after the epoch counts as expired.
    pub fn is_expired(&self) -> (r: bool)
        ensures
            self.expires_at <= EXPIRY_MARGIN_SECS ==> r,
    {
        let now = now_secs();
        self.is_expired_at(now)
    }
}

/// Message when neither `XDG_CONFIG_HOME` nor `HOME` is set.
pub open spec fn no_config_dir_message() -> Seq<char> {
    "Cannot determine config directory (HOME not set)"@
}

/// The components of the credentials file's path, to be joined in order:
/// `$XDG_CONFIG_HOME/fetching-cli/credentials.json`, else
/// `$HOME/.config/fetching-cli/credentials.json`.
pub open spec fn spec_credentials_path_parts(
    xdg_config_home: Option<Seq<char>>,
    home: Option<Seq<char>>,
) -> Option<Seq<Seq<char>>> {
    match xdg_config_home {
        Some(x) => Some(seq![x, "fetching-cli"@, "credentials.json"@]),
        None => match home {
            Some(h) => Some(seq![h, ".config"@, "fetching-cli"@, "credentials.json"@]),
            None => None,
        },
    }
}

/// The text of an optional string.
pub open spec fn opt_text(s: Option<String>) -> Option<Seq<char>> {
    match s {
        Some(t) => Some(t@),
        None => None,
    }
}

/// Where the stored credentials live, as path components to join in order,
/// given the values of `XDG_CONFIG_HOME` and `HOME`.
pub fn credentials_path_parts(xdg_config_home: Option<String>, home: Option<String>) -> (r: Result<
    Vec<String>,
    CliError,
>)
    ensures
        match spec_credentials_path_parts(opt_text(xdg_config_home), opt_text(home)) {
            Some(parts) => r matches Ok(v) && v@.map_values(|p: String| p@) == parts,
            None => r matches Err(e) && e.code == ExitCode::InvalidInput && e.message@
                == no_config_dir_message() && e.source is None,
        },
{
    let mut parts: Vec<String> = Vec::new();
    match xdg_config_home {
        Some(x) => parts.push(x),
        None => match home {
            Some(h) => {
                parts.push(h);
                parts.push(String::from_str(".config"));
            },
            None => {
                return Err(
                    CliError::new(
                        ExitCode::InvalidInput,
                        String::from_str("Cannot determine config directory (HOME not set)"),
                    ),
                );
            },
        },
    }
    parts.push(String::from_str("fetching-cli"));
    parts.push(String::from_str("credentials.json"));
    proof {
        let expected = spec_credentials_path_parts(opt_text(xdg_config_home), opt_text(home));
        assert(parts@.map_values(|p: String| p@) =~= expected.unwrap());
    }
    Ok(parts)
}

} // verus!
