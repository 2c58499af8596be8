//! Exit codes and the error value every failure is reported with.

use vstd::prelude::*;
use vstd::string::*;

verus! {

/// Exit codes returned by the process.
///
/// | Code | Meaning                                              |
/// |------|------------------------------------------------------|
/// |  0   | Success                                              |
/// |  1   | Authentication error (OAuth failed, bad credentials) |
/// |  2   | Invalid input (bad URI, malformed JSON, missing arg) |
/// |  3   | Network error (timeout, DNS, connection refused)     |
/// |  4   | API error (not found, region-restricted, rate limit) |
/// |  5   | Audio key error (decryption key request failed)      |
/// |  6   | Audio download error (stream interrupted, I/O)       |
/// |  7   | Serialization error (failed to produce JSON output)  |
#[derive(Debug, Clone, Copy, PartialEq, Eq, Structural)]
pub enum ExitCode {
    Success,
    AuthError,
    InvalidInput,
    NetworkError,
    ApiError,
    AudioKeyError,
    AudioDownloadError,
    SerializationError,
}

impl ExitCode {
    /// The number the process exits with for this code.
    pub open spec fn spec_code(self) -> u8 {
        match self {
            ExitCode::Success => 0,
            ExitCode::AuthError => 1,
            ExitCode::InvalidInput => 2,
            ExitCode::NetworkError => 3,
            ExitCode::ApiError => 4,
            ExitCode::AudioKeyError => 5,
            ExitCode::AudioDownloadError => 6,
            ExitCode::SerializationError => 7,
        }
    }

    /// The number the process exits with for this code.
    pub fn code(&self) -> (r: u8)
        ensures
            r == self.spec_code(),
    {
        match self {
            ExitCode::Success => 0,
            ExitCode::AuthError => 1,
            ExitCode::InvalidInput => 2,
            ExitCode::NetworkError => 3,
            ExitCode::ApiError => 4,
            ExitCode::AudioKeyError => 5,
            ExitCode::AudioDownloadError => 6,
            ExitCode::SerializationError => 7,
        }
    }
}

impl From<ExitCode> for i32 {
    fn from(code: ExitCode) -> (r: i32) {
        code.code() as i32
    }
}

impl vstd::std_specs::convert::FromSpecImpl<ExitCode> for i32 {
    open spec fn obeys_from_spec() -> bool {
        true
    }

    open spec fn from_spec(v: ExitCode) -> i32 {
        v.spec_code() as i32
    }
}

/// The single character `'0'`..`'9'` naming a digit below ten.
pub open spec fn decimal_digit(n: u8) -> char
    recommends
        n < 10,
{
    ((n as u32) + ('0' as u32)) as char
}

/// The lowercase hexadecimal digit for a value below sixteen.
pub open spec fn lower_hex_digit(n: u8) -> char
    recommends
        n < 16,
{
    if n < 10 {
        ((n as u32) + ('0' as u32)) as char
    } else {
        ((n as u32) - 10 + ('a' as u32)) as char
    }
}

/// How serde_json writes one character inside a JSON string literal.
pub open spec fn json_escape_char(c: char) -> Seq<char> {
    let n = c as u32;
    if c == '"' {
        seq!['\\', '"']
    } else if c == '\\' {
        seq!['\\', '\\']
    } else if n == 0x08 {
        seq!['\\', 'b']
    } else if n == 0x09 {
        seq!['\\', 't']
    } else if n == 0x0a {
        seq!['\\', 'n']
    } else if n == 0x0c {
        seq!['\\', 'f']
    } else if n == 0x0d {
        seq!['\\', 'r']
    } else if n < 0x20 {
        seq!['\\', 'u', '0', '0', lower_hex_digit((n / 16) as u8), lower_hex_digit((n % 16) as u8)]
    } else {
        seq![c]
    }
}

/// The escaped body of a JSON string literal holding `s`.
pub open spec fn json_escaped(s: Seq<char>) -> Seq<char>
    decreases s.len(),
{
    if s.len() == 0 {
        Seq::empty()
    } else {
        json_escape_char(s[0]) + json_escaped(s.drop_first())
    }
}

/// The JSON string literal (with its quotes) that holds `s`.
pub open spec fn json_quoted(s: Seq<char>) -> Seq<char> {
    seq!['"'] + json_escaped(s) + seq!['"']
}

/// `serde_json::Value::String` rendered with `Display`: the compact JSON text
/// of the string, which quotes it and escapes `"`, `\` and the control
/// characters below U+0020, and copies every other character unchanged.
#[verifier::external_body]
fn json_string_literal(s: &str) -> (r: String)
    ensures
        r@ == json_quoted(s@),
{
    serde_json::Value::String(s.to_owned()).to_string()
}

impl ExitCode {
    /// The decimal text of the code's number.
    pub open spec fn code_text(self) -> Seq<char> {
        seq![decimal_digit(self.spec_code())]
    }

    /// The decimal text of the code's number.
    pub fn code_string(&self) -> (r: &'static str)
        ensures
            r@ == self.code_text(),
    {
        match self {
            ExitCode::Success => {
                proof {
                    reveal_strlit("0");
                }
                "0"
            },
            ExitCode::AuthError => {
                proof {
                    reveal_strlit("1");
                }
                "1"
            },
            ExitCode::InvalidInput => {
                proof {
                    reveal_strlit("2");
                }
                "2"
            },
            ExitCode::NetworkError => {
                proof {
                    reveal_strlit("3");
                }
                "3"
            },
            ExitCode::ApiError => {
                proof {
                    reveal_strlit("4");
                }
                "4"
            },
            ExitCode::AudioKeyError => {
                proof {
                    reveal_strlit("5");
                }
                "5"
            },
            ExitCode::AudioDownloadError => {
                proof {
                    reveal_strlit("6");
                }
                "6"
            },
            ExitCode::SerializationError => {
                proof {
                    reveal_strlit("7");
                }
                "7"
            },
        }
    }
}

/// The kind of a failed request to Spotify, as librespot classifies its
/// errors.
#[derive(Debug, Clone, Copy, PartialEq, Eq, Structural)]
pub enum RequestErrorKind {
    Cancelled,
    Unknown,
    InvalidArgument,
    DeadlineExceeded,
    NotFound,
    AlreadyExists,
    PermissionDenied,
    Unauthenticated,
    ResourceExhausted,
    FailedPrecondition,
    Aborted,
    OutOfRange,
    Unimplemented,
    Internal,
    Unavailable,
    DataLoss,
    DoNotUse,
}

impl RequestErrorKind {
    /// The request failed on the network: the service could not be reached
    /// (a name that did not resolve, a refused connection) or did not answer
    /// in time.
    pub open spec fn spec_is_network(self) -> bool {
        self == RequestErrorKind::Unavailable || self == RequestErrorKind::DeadlineExceeded
    }

    /// Whether the request failed on the network.
    pub fn is_network(&self) -> (r: bool)
        ensures
            r == self.spec_is_network(),
    {
        match self {
            RequestErrorKind::Unavailable | RequestErrorKind::DeadlineExceeded => true,
            _ => false,
        }
    }
}

/// A CLI error carrying a human-readable message and an [`ExitCode`].
#[derive(Debug)]
pub struct CliError {
    pub code: ExitCode,
    pub message: String,
    /// Text of the underlying cause, kept for logging.
    pub source: Option<String>,
}

/// The opening of the JSON error report, up to the code's number.
pub open spec fn report_head() -> Seq<char> {
    "{\"error\":{\"code\":"@
}

/// The text between the code's number and the quoted message.
pub open spec fn report_middle() -> Seq<char> {
    ",\"message\":"@
}

/// The closing of the JSON error report.
pub open spec fn report_tail() -> Seq<char> {
    "}}"@
}

impl CliError {
    /// An error with no underlying cause.
    pub fn new(code: ExitCode, message: String) -> (r: Self)
        ensures
            r.code == code,
            r.message@ == message@,
            r.source is None,
    {
        CliError { code, message, source: None }
    }

    /// An error that records the text of its underlying cause.
    pub fn with_source(code: ExitCode, message: String, source: String) -> (r: Self)
        ensures
            r.code == code,
            r.message@ == message@,
            r.source matches Some(s) && s@ == source@,
    {
        CliError { code, message, source: Some(source) }
    }

    /// The JSON object reported on standard error:
    /// `{"error":{"code":N,"message":"..."}}`.
    pub open spec fn spec_report(self) -> Seq<char> {
        report_head() + self.code.code_text() + report_middle() + json_quoted(self.message@)
            + report_tail()
    }

    /// The JSON object reported on standard error for this error.
    pub fn error_json(&self) -> (r: String)
        ensures
            r@ == self.spec_report(),
    {
        let mut out = String::from_str("{\"error\":{\"code\":");
        out.append(self.code.code_string());
        out.append(",\"message\":");
        let quoted = json_string_literal(self.message.as_str());
        out.append(quoted.as_str());
        out.append("}}");
        out
    }

    /// The status the process exits with for this error.
    pub fn exit_status(&self) -> (r: i32)
        ensures
            r == self.code.spec_code() as i32,
    {
        self.code.into()
    }

    /// The human-readable form `[exit N] message`.
    pub open spec fn spec_display(self) -> Seq<char> {
        "[exit "@ + self.code.code_text() + "] "@ + self.message@
    }

    /// The human-readable form `[exit N] message`.
    pub fn display_text(&self) -> (r: String)
        ensures
            r@ == self.spec_display(),
    {
        let mut out = String::from_str("[exit ");
        out.append(self.code.code_string());
        out.append("] ");
        out.append(self.message.as_str());
        out
    }
}

} // verus!
