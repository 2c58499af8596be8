//! The command line's decisions: what the positional arguments ask for, and
//! whether stored credentials are used, refreshed or replaced.

use vstd::prelude::*;
use vstd::string::*;

use crate::credentials::{expired_at, Credentials};
use crate::error::{CliError, ExitCode};
use crate::uri::{classify, invalid_input, spec_classify, unrecognised_argument_message, ArgKind};

verus! {

/// What a run does.
#[derive(Debug)]
pub enum Command {
    /// Make sure credentials are stored, authenticating interactively when
    /// none are.
    Authenticate,
    /// Print the metadata of a Spotify item.
    FetchMetadata { uri: String },
    /// Download the audio file `file_id` of the track or episode `uri`.
    FetchAudio { uri: String, file_id: String },
}

/// A command, with its texts as character sequences.
pub enum CommandSpec {
    Authenticate,
    FetchMetadata { uri: Seq<char> },
    FetchAudio { uri: Seq<char>, file_id: Seq<char> },
}

impl View for Command {
    type V = CommandSpec;

    open spec fn view(&self) -> CommandSpec {
        match self {
            Command::Authenticate => CommandSpec::Authenticate,
            Command::FetchMetadata { uri } => CommandSpec::FetchMetadata { uri: uri@ },
            Command::FetchAudio { uri, file_id } => CommandSpec::FetchAudio {
                uri: uri@,
                file_id: file_id@,
            },
        }
    }
}

/// Message when no target is given and stdin is not a terminal.
pub open spec fn no_target_message() -> Seq<char> {
    "No target specified. Pass a Spotify URI/URL to fetch metadata, or a Spotify URI/URL and a file ID to download audio."@
}

/// Message when the only argument is a file ID.
pub open spec fn lone_file_id_message(arg: Seq<char>) -> Seq<char> {
    "'"@ + arg + "' looks like a file ID but no Spotify URI/URL was given."@
}

/// Message when both arguments are Spotify targets.
pub open spec fn two_targets_message() -> Seq<char> {
    "Two Spotify URIs/URLs given — expected a Spotify URI/URL and a file ID."@
}

/// Message when both arguments are file IDs.
pub open spec fn two_file_ids_message() -> Seq<char> {
    "Two file IDs given — expected a Spotify URI/URL and a file ID."@
}

/// What `plan_command` decides for the positional arguments `targets` (at
/// most two): the command, or the message of the `InvalidInput` error.
pub open spec fn spec_plan(targets: Seq<Seq<char>>, interactive: bool) -> Result<
    CommandSpec,
    Seq<char>,
> {
    if targets.len() == 0 {
        if interactive {
            Ok(CommandSpec::Authenticate)
        } else {
            Err(no_target_message())
        }
    } else if targets.len() == 1 {
        let a = targets[0];
        match spec_classify(a) {
            None => Err(unrecognised_argument_message(a)),
            Some((true, _)) => Ok(CommandSpec::FetchMetadata { uri: a }),
            Some((false, _)) => Err(lone_file_id_message(a)),
        }
    } else {
        let a = targets[0];
        let b = targets[1];
        match (spec_classify(a), spec_classify(b)) {
            (None, _) => Err(unrecognised_argument_message(a)),
            (Some(_), None) => Err(unrecognised_argument_message(b)),
            (Some((true, _)), Some((false, _))) => Ok(CommandSpec::FetchAudio { uri: a, file_id: b }),
            (Some((false, _)), Some((true, _))) => Ok(CommandSpec::FetchAudio { uri: b, file_id: a }),
            (Some((true, _)), Some((true, _))) => Err(two_targets_message()),
            (Some((false, _)), Some((false, _))) => Err(two_file_ids_message()),
        }
    }
}

/// The texts of the arguments.
pub open spec fn texts(targets: Seq<String>) -> Seq<Seq<char>> {
    targets.map_values(|s: String| s@)
}

/// Decide what a run does from its positional arguments (at most two, in any
/// order) and whether stdin is a terminal.
pub fn plan_command(targets: &Vec<String>, interactive: bool) -> (r: Result<Command, CliError>)
    requires
        targets.len() <= 2,
    ensures
        match spec_plan(texts(targets@), interactive) {
            Ok(c) => r matches Ok(cmd) && cmd@ == c,
            Err(msg) => r matches Err(e) && invalid_input(e, msg),
        },
{
    let ghost ts = texts(targets@);
    if targets.len() == 0 {
        if interactive {
            return Ok(Command::Authenticate);
        }
        return Err(
            CliError::new(
                ExitCode::InvalidInput,
                String::from_str(
                    "No target specified. Pass a Spotify URI/URL to fetch metadata, or a Spotify URI/URL and a file ID to download audio.",
                ),
            ),
        );
    }
    if targets.len() == 1 {
        let a = targets[0].as_str();
        assert(ts[0] == a@);
        return match classify(a)? {
            ArgKind::SpotifyTarget(uri) => Ok(Command::FetchMetadata { uri }),
            ArgKind::FileId(_) => {
                let mut msg = String::from_str("'");
                msg.append(a);
                msg.append("' looks like a file ID but no Spotify URI/URL was given.");
                Err(CliError::new(ExitCode::InvalidInput, msg))
            },
        };
    }
    let a = targets[0].as_str();
    let b = targets[1].as_str();
    assert(ts[0] == a@ && ts[1] == b@);
    let ka = classify(a)?;
    let kb = classify(b)?;
    match (ka, kb) {
        (ArgKind::SpotifyTarget(uri), ArgKind::FileId(file_id)) => Ok(
            Command::FetchAudio { uri, file_id },
        ),
        (ArgKind::FileId(file_id), ArgKind::SpotifyTarget(uri)) => Ok(
            Command::FetchAudio { uri, file_id },
        ),
        (ArgKind::SpotifyTarget(_), ArgKind::SpotifyTarget(_)) => Err(
            CliError::new(
                ExitCode::InvalidInput,
                String::from_str(
                    "Two Spotify URIs/URLs given — expected a Spotify URI/URL and a file ID.",
                ),
            ),
        ),
        (ArgKind::FileId(_), ArgKind::FileId(_)) => Err(
            CliError::new(
                ExitCode::InvalidInput,
                String::from_str("Two file IDs given — expected a Spotify URI/URL and a file ID."),
            ),
        ),
    }
}

/// What to do about credentials before contacting Spotify.
#[derive(Debug)]
pub enum CredentialsStep {
    /// Use the stored credentials as they are.
    Use(Credentials),
    /// Refresh the stored, expired credentials, then store the new ones.
    Refresh(Credentials),
    /// Run the browser authorization flow, then store the credentials.
    Authenticate,
    /// Give up with this error.
    Fail(CliError),
}

/// Message when no credentials are stored and no one can authenticate.
pub open spec fn no_credentials_message() -> Seq<char> {
    "No stored credentials found. Run fetching-cli interactively to authenticate."@
}

/// Decide how to obtain credentials from what is stored, the time `now`, and
/// whether stdin is a terminal: stored credentials are used while they are
/// fresh and refreshed once expired; without any, the browser flow runs only
/// when someone is at the terminal.
pub fn plan_credentials(stored: Option<Credentials>, now: u64, interactive: bool) -> (r:
    CredentialsStep)
    ensures
        match stored {
            Some(c) => if expired_at(c.expires_at, now) {
                r matches CredentialsStep::Refresh(d) && d == c
            } else {
                r matches CredentialsStep::Use(d) && d == c
            },
            None => if interactive {
                r is Authenticate
            } else {
                r matches CredentialsStep::Fail(e) && e.code == ExitCode::AuthError && e.message@
                    == no_credentials_message() && e.source is None
            },
        },
{
    match stored {
        Some(creds) => {
            if creds.is_expired_at(now) {
                CredentialsStep::Refresh(creds)
            } else {
                CredentialsStep::Use(creds)
            }
        },
        None => {
            if interactive {
                CredentialsStep::Authenticate
            } else {
                CredentialsStep::Fail(
                    CliError::new(
                        ExitCode::AuthError,
                        String::from_str(
                            "No stored credentials found. Run fetching-cli interactively to authenticate.",
                        ),
                    ),
                )
            }
        },
    }
}

} // verus!
