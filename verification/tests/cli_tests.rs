use fetching_cli::auth::{credentials_from_token, refresh_failure};
use fetching_cli::cli::{plan_command, plan_credentials, Command, CredentialsStep};
use fetching_cli::credentials::{credentials_path_parts, now_secs, Credentials};
use fetching_cli::error::{ExitCode, RequestErrorKind};
use fetching_cli::metadata::{metadata_fetch_failed, MetadataKind};
use fetching_cli::session::{session_access_token, session_failure};

const URI: &str = "spotify:track:6rqhFgbbKwnb9MLmUQDhG6";
const FID: &str = "0123456789abcdef0123456789abcdef01234567";

fn creds(expires_at: u64) -> Credentials {
    Credentials { access_token: "a".into(), refresh_token: "r".into(), expires_at }
}

#[test]
fn no_targets() {
    assert!(matches!(plan_command(&vec![], true).unwrap(), Command::Authenticate));
    let e = plan_command(&vec![], false).unwrap_err();
    assert_eq!(e.code, ExitCode::InvalidInput);
    assert_eq!(
        e.message,
        "No target specified. Pass a Spotify URI/URL to fetch metadata, or a Spotify URI/URL and a file ID to download audio."
    );
}

#[test]
fn one_target() {
    assert!(matches!(plan_command(&vec![URI.to_string()], false).unwrap(), Command::FetchMetadata { uri } if uri == URI));
    let e = plan_command(&vec![FID.to_string()], false).unwrap_err();
    assert_eq!(e.message, format!("'{FID}' looks like a file ID but no Spotify URI/URL was given."));
}

#[test]
fn two_targets_in_either_order() {
    for args in [vec![URI.to_string(), FID.to_string()], vec![FID.to_string(), URI.to_string()]] {
        match plan_command(&args, false).unwrap() {
            Command::FetchAudio { uri, file_id } => {
                assert_eq!(uri, URI);
                assert_eq!(file_id, FID);
            }
            other => panic!("unexpected {other:?}"),
        }
    }
}

#[test]
fn two_of_a_kind_rejected() {
    let e = plan_command(&vec![URI.to_string(), URI.to_string()], false).unwrap_err();
    assert_eq!(e.message, "Two Spotify URIs/URLs given — expected a Spotify URI/URL and a file ID.");
    let e = plan_command(&vec![FID.to_string(), FID.to_string()], false).unwrap_err();
    assert_eq!(e.message, "Two file IDs given — expected a Spotify URI/URL and a file ID.");
}

#[test]
fn first_unrecognised_argument_is_reported() {
    let e = plan_command(&vec!["nope".to_string(), "also no".to_string()], false).unwrap_err();
    assert_eq!(e.message, "Unrecognised argument 'nope': expected a Spotify URI/URL or a hex file ID.");
    let e = plan_command(&vec![URI.to_string(), "zz".to_string()], false).unwrap_err();
    assert_eq!(e.message, "Unrecognised argument 'zz': expected a Spotify URI/URL or a hex file ID.");
}

#[test]
fn expiry_margin_is_sixty_seconds() {
    let c = creds(1000);
    assert!(!c.is_expired_at(939));
    assert!(c.is_expired_at(940));
    assert!(c.is_expired_at(5000));
    assert!(creds(30).is_expired_at(0));
}

#[test]
fn stored_credentials_used_refreshed_or_replaced() {
    assert!(matches!(plan_credentials(Some(creds(1000)), 100, false), CredentialsStep::Use(c) if c.expires_at == 1000));
    assert!(matches!(plan_credentials(Some(creds(1000)), 990, false), CredentialsStep::Refresh(c) if c.expires_at == 1000));
    assert!(matches!(plan_credentials(None, 0, true), CredentialsStep::Authenticate));
    match plan_credentials(None, 0, false) {
        CredentialsStep::Fail(e) => {
            assert_eq!(e.code, ExitCode::AuthError);
            assert_eq!(e.message, "No stored credentials found. Run fetching-cli interactively to authenticate.");
        }
        other => panic!("unexpected {other:?}"),
    }
}

#[test]
fn fresh_token_credentials() {
    let c = credentials_from_token("acc".into(), "ref".into(), Some(120), 1_000);
    assert_eq!((c.access_token.as_str(), c.refresh_token.as_str(), c.expires_at), ("acc", "ref", 1_120));
    assert!(!c.is_expired_at(1_000));
    let c = credentials_from_token("a".into(), "r".into(), None, 50);
    assert_eq!(c.expires_at, 3_650);
}

#[test]
fn clock_reads_after_2020() {
    assert!(now_secs() > 1_577_836_800);
}

#[test]
fn refresh_failures_are_classified() {
    let e = refresh_failure("connection reset");
    assert_eq!(e.code, ExitCode::NetworkError);
    assert_eq!(e.message, "Token refresh failed (network): connection reset");
    let e = refresh_failure("invalid_grant");
    assert_eq!(e.code, ExitCode::AuthError);
    assert_eq!(e.message, "Token refresh failed: invalid_grant");
    assert_eq!(refresh_failure("dns error").code, ExitCode::NetworkError);
}

#[test]
fn session_failures_are_classified() {
    let e = session_failure(RequestErrorKind::PermissionDenied, "Login failed with reason: Bad credentials");
    assert_eq!(e.code, ExitCode::AuthError);
    assert_eq!(e.message, "Failed to connect session (bad credentials): Login failed with reason: Bad credentials");
    let e = session_failure(RequestErrorKind::Unknown, "request timed out");
    assert_eq!(e.code, ExitCode::NetworkError);
    assert_eq!(e.message, "Failed to connect session (network): request timed out");
    let e = session_failure(RequestErrorKind::Unavailable, "Service unavailable { Connection refused (os error 111) }");
    assert_eq!(e.code, ExitCode::NetworkError);
    assert_eq!(e.message, "Failed to connect session (network): Service unavailable { Connection refused (os error 111) }");
    assert_eq!(session_failure(RequestErrorKind::DeadlineExceeded, "Deadline expired").code, ExitCode::NetworkError);
    let e = session_failure(RequestErrorKind::ResourceExhausted, "rate limited");
    assert_eq!(e.code, ExitCode::ApiError);
    assert_eq!(e.message, "Failed to connect session: rate limited");
    assert_eq!(e.source.as_deref(), Some("rate limited"));
    assert_eq!(session_failure(RequestErrorKind::Unavailable, "oauth rejected").code, ExitCode::AuthError);
}

#[test]
fn session_token_is_trimmed() {
    let c = Credentials { access_token: " \ttok en\n".into(), refresh_token: String::new(), expires_at: 0 };
    assert_eq!(session_access_token(&c), "tok en");
}

#[test]
fn credentials_path_components() {
    assert_eq!(
        credentials_path_parts(Some("/x".into()), Some("/home/u".into())).unwrap(),
        vec!["/x", "fetching-cli", "credentials.json"]
    );
    assert_eq!(
        credentials_path_parts(None, Some("/home/u".into())).unwrap(),
        vec!["/home/u", ".config", "fetching-cli", "credentials.json"]
    );
    let e = credentials_path_parts(None, None).unwrap_err();
    assert_eq!(e.code, ExitCode::InvalidInput);
    assert_eq!(e.message, "Cannot determine config directory (HOME not set)");
}

#[test]
fn metadata_fetch_failure_message() {
    let e = metadata_fetch_failed(MetadataKind::Playlist, RequestErrorKind::NotFound, "404");
    assert_eq!(e.code, ExitCode::ApiError);
    assert_eq!(e.message, "Failed to fetch playlist metadata: 404");
    let e = metadata_fetch_failed(MetadataKind::Track, RequestErrorKind::DeadlineExceeded, "request timed out");
    assert_eq!(e.code, ExitCode::NetworkError);
    assert_eq!(e.message, "Failed to fetch track metadata: request timed out");
    assert_eq!(e.source.as_deref(), Some("request timed out"));
    let refused = "Service unavailable { Connection refused (os error 111) }";
    assert_eq!(metadata_fetch_failed(MetadataKind::Album, RequestErrorKind::Unavailable, refused).code, ExitCode::NetworkError);
    let dns = "Service unavailable { client error (Connect) }";
    assert_eq!(metadata_fetch_failed(MetadataKind::Album, RequestErrorKind::Unavailable, dns).code, ExitCode::NetworkError);
    assert_eq!(metadata_fetch_failed(MetadataKind::Album, RequestErrorKind::ResourceExhausted, "rate limited").code, ExitCode::ApiError);
    assert_eq!(metadata_fetch_failed(MetadataKind::Album, RequestErrorKind::PermissionDenied, "connection not allowed").code, ExitCode::ApiError);
}
