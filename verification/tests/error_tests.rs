use fetching_cli::error::{CliError, ExitCode};

#[test]
fn exit_codes_match_documented_table() {
    assert_eq!(ExitCode::Success.code(), 0);
    assert_eq!(ExitCode::AuthError.code(), 1);
    assert_eq!(ExitCode::InvalidInput.code(), 2);
    assert_eq!(ExitCode::NetworkError.code(), 3);
    assert_eq!(ExitCode::ApiError.code(), 4);
    assert_eq!(ExitCode::AudioKeyError.code(), 5);
    assert_eq!(ExitCode::AudioDownloadError.code(), 6);
    assert_eq!(ExitCode::SerializationError.code(), 7);
}

#[test]
fn exit_code_converts_to_i32() {
    assert_eq!(i32::from(ExitCode::AudioKeyError), 5);
    let n: i32 = ExitCode::SerializationError.into();
    assert_eq!(n, 7);
}

#[test]
fn new_error_has_no_source() {
    let e = CliError::new(ExitCode::ApiError, "boom".to_string());
    assert_eq!(e.code, ExitCode::ApiError);
    assert_eq!(e.message, "boom");
    assert!(e.source.is_none());
}

#[test]
fn with_source_keeps_cause() {
    let e = CliError::with_source(ExitCode::NetworkError, "down".to_string(), "dns".to_string());
    assert_eq!(e.source.as_deref(), Some("dns"));
    assert_eq!(e.exit_status(), 3);
}

#[test]
fn error_json_matches_documented_shape() {
    let e = CliError::new(ExitCode::InvalidInput, "bad input".to_string());
    assert_eq!(e.error_json(), "{\"error\":{\"code\":2,\"message\":\"bad input\"}}");
}

#[test]
fn error_json_escapes_message() {
    let e = CliError::new(ExitCode::AuthError, "say \"hi\"\\\n\t\u{1}".to_string());
    assert_eq!(
        e.error_json(),
        "{\"error\":{\"code\":1,\"message\":\"say \\\"hi\\\"\\\\\\n\\t\\u0001\"}}"
    );
}

#[test]
fn error_json_keeps_non_ascii() {
    let e = CliError::new(ExitCode::ApiError, "café — ok".to_string());
    assert_eq!(e.error_json(), "{\"error\":{\"code\":4,\"message\":\"café — ok\"}}");
}

#[test]
fn display_text_shows_code_and_message() {
    let e = CliError::new(ExitCode::AudioDownloadError, "stream cut".to_string());
    assert_eq!(e.display_text(), "[exit 6] stream cut");
}
