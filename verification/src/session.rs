//! What a librespot session is opened with, and how a failed connection is
//! reported.

use vstd::prelude::*;
use vstd::string::*;

use crate::credentials::Credentials;
use crate::error::{CliError, ExitCode, RequestErrorKind};
use crate::text::{contains, contains_text, trim, trim_text};

verus! {

/// The access token a session is opened with: the stored token without
/// surrounding white space.
pub fn session_access_token(creds: &Credentials) -> (r: String)
    ensures
        r@ == trim(creds.access_token@),
{
    trim_text(creds.access_token.as_str())
}

/// A connection failure whose message points at the credentials.
pub open spec fn is_auth_failure(detail: Seq<char>) -> bool {
    contains_text(detail, "Bad credentials"@) || contains_text(detail, "auth"@)
}

/// A connection failure whose message points at the network.
pub open spec fn is_session_network_failure(detail: Seq<char>) -> bool {
    ||| contains_text(detail, "timed out"@)
    ||| contains_text(detail, "connection"@)
    ||| contains_text(detail, "resolve"@)
}

/// A connection that failed on the network: by librespot's kind of the
/// failure (an unreachable service, a deadline), or by its message.
pub open spec fn session_network_failure(cause: RequestErrorKind, detail: Seq<char>) -> bool {
    cause.spec_is_network() || is_session_network_failure(detail)
}

/// The exit code a failed connection is reported with.
pub open spec fn session_failure_code(cause: RequestErrorKind, detail: Seq<char>) -> ExitCode {
    if is_auth_failure(detail) {
        ExitCode::AuthError
    } else if session_network_failure(cause, detail) {
        ExitCode::NetworkError
    } else {
        ExitCode::ApiError
    }
}

/// The message a failed connection is reported with.
pub open spec fn session_failure_message(cause: RequestErrorKind, detail: Seq<char>) -> Seq<char> {
    if is_auth_failure(detail) {
        "Failed to connect session (bad credentials): "@ + detail
    } else if session_network_failure(cause, detail) {
        "Failed to connect session (network): "@ + detail
    } else {
        "Failed to connect session: "@ + detail
    }
}

/// Classify a failed session connection: bad credentials when its message
/// says so, a network problem when it failed on the network, or another API
/// failure. `cause` is librespot's kind of the failure, `detail` its message.
pub fn session_failure(cause: RequestErrorKind, detail: &str) -> (r: CliError)
    ensures
        r.code == session_failure_code(cause, detail@),
        r.message@ == session_failure_message(cause, detail@),
        r.source matches Some(s) && s@ == detail@,
{
    let (code, mut msg) = if contains(detail, "Bad credentials") || contains(detail, "auth") {
        (ExitCode::AuthError, String::from_str("Failed to connect session (bad credentials): "))
    } else if cause.is_network() || contains(detail, "timed out") || contains(detail, "connection")
        || contains(detail, "resolve") {
        (ExitCode::NetworkError, String::from_str("Failed to connect session (network): "))
    } else {
        (ExitCode::ApiError, String::from_str("Failed to connect session: "))
    };
    msg.append(detail);
    CliError::with_source(code, msg, String::from_str(detail))
}

} // verus!
