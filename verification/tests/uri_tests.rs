use fetching_cli::error::ExitCode;
use fetching_cli::metadata::{metadata_kind, plan_metadata, MetadataKind};
use fetching_cli::uri::{classify, normalise_uri, parse_track_uri, parse_uri, ArgKind, SpotifyUriValue};

#[test]
fn spotify_uri_unchanged() {
    assert_eq!(
        normalise_uri("spotify:album:7FwAtuhhWivxvK4aPgyyUD").unwrap(),
        "spotify:album:7FwAtuhhWivxvK4aPgyyUD"
    );
}

#[test]
fn url_becomes_uri() {
    assert_eq!(
        normalise_uri("https://open.spotify.com/album/7FwAtuhhWivxvK4aPgyyUD").unwrap(),
        "spotify:album:7FwAtuhhWivxvK4aPgyyUD"
    );
}

#[test]
fn url_query_and_fragment_are_dropped() {
    assert_eq!(
        normalise_uri("https://open.spotify.com/track/6rqhFgbbKwnb9MLmUQDhG6?si=abc#x").unwrap(),
        "spotify:track:6rqhFgbbKwnb9MLmUQDhG6"
    );
    assert_eq!(
        normalise_uri("https://open.spotify.com/show/abc#frag/more").unwrap(),
        "spotify:show:abc"
    );
}

#[test]
fn url_parts_are_trimmed() {
    assert_eq!(
        normalise_uri("https://open.spotify.com/ track /abc \u{3000}").unwrap(),
        "spotify:track:abc"
    );
}

#[test]
fn url_id_keeps_later_slashes() {
    assert_eq!(
        normalise_uri("https://open.spotify.com/user/bob/playlist").unwrap(),
        "spotify:user:bob/playlist"
    );
}

#[test]
fn url_without_id_is_rejected() {
    let e = normalise_uri("https://open.spotify.com/album").unwrap_err();
    assert_eq!(e.code, ExitCode::InvalidInput);
    assert_eq!(
        e.message,
        "Cannot parse Spotify URL — expected https://open.spotify.com/{type}/{id}, got: https://open.spotify.com/album"
    );
    let e = normalise_uri("https://open.spotify.com/album/ ?x").unwrap_err();
    assert_eq!(e.code, ExitCode::InvalidInput);
}

#[test]
fn unrecognised_identifier_is_rejected() {
    let e = normalise_uri("http://example.com/x").unwrap_err();
    assert_eq!(e.code, ExitCode::InvalidInput);
    assert_eq!(
        e.message,
        "Unrecognised Spotify identifier 'http://example.com/x' — expected a spotify:… URI or https://open.spotify.com/… URL"
    );
    assert!(e.source.is_none());
}

#[test]
fn normalising_twice_changes_nothing() {
    let once = normalise_uri("https://open.spotify.com/artist/0OdUWJ0sBjDrqHygGUXeCF?si=1").unwrap();
    let twice = normalise_uri(&once).unwrap();
    assert_eq!(once, twice);
}

#[test]
fn classify_targets_and_file_ids() {
    assert!(matches!(classify("spotify:track:x").unwrap(), ArgKind::SpotifyTarget(s) if s == "spotify:track:x"));
    assert!(matches!(classify("https://open.spotify.com/a/b").unwrap(), ArgKind::SpotifyTarget(_)));
    assert!(matches!(classify("http://x").unwrap(), ArgKind::SpotifyTarget(_)));
    assert!(matches!(classify("abcDEF0123").unwrap(), ArgKind::FileId(s) if s == "abcDEF0123"));
}

#[test]
fn classify_rejects_other_arguments() {
    let e = classify("hello").unwrap_err();
    assert_eq!(e.code, ExitCode::InvalidInput);
    assert_eq!(
        e.message,
        "Unrecognised argument 'hello': expected a Spotify URI/URL or a hex file ID."
    );
    assert!(classify("").is_err());
}

#[test]
fn parse_uri_parses_track() {
    let u = parse_uri("https://open.spotify.com/track/6rqhFgbbKwnb9MLmUQDhG6").unwrap();
    assert!(matches!(u, SpotifyUriValue::Track { .. }));
    assert_eq!(u.item_type(), "track");
    assert_eq!(u.into_text(), "spotify:track:6rqhFgbbKwnb9MLmUQDhG6");
}

#[test]
fn parse_uri_reports_librespot_error() {
    let e = parse_uri("spotify:track:tooshort").unwrap_err();
    assert_eq!(e.code, ExitCode::InvalidInput);
    let cause = e.source.clone().expect("librespot's message is kept as the cause");
    assert!(!cause.is_empty());
    assert_eq!(e.message, format!("Failed to parse Spotify URI 'spotify:track:tooshort': {cause}"));
}

#[test]
fn playlist_with_user_round_trips() {
    let u = parse_uri("spotify:user:bob:playlist:37i9dQZF1DXcBWIGoYBM5M").unwrap();
    assert!(matches!(&u, SpotifyUriValue::Playlist { user: Some(n), .. } if n == "bob"));
    assert_eq!(u.into_text(), "spotify:user:bob:playlist:37i9dQZF1DXcBWIGoYBM5M");
}

#[test]
fn unknown_and_local_item_types() {
    let u = parse_uri("spotify:concert:abc").unwrap();
    assert_eq!(u.item_type(), "unknown");
    let e = metadata_kind(&u).unwrap_err();
    assert_eq!(e.message, "Unsupported Spotify item type: 'unknown'");
    let l = parse_uri("spotify:local:Artist:Album:Title:215").unwrap();
    assert_eq!(l.item_type(), "local");
    assert_eq!(l.into_text(), "spotify:local:Artist:Album:Title:215");
}

#[test]
fn track_uri_is_not_normalised_for_audio() {
    let e = parse_track_uri("https://open.spotify.com/track/6rqhFgbbKwnb9MLmUQDhG6").unwrap_err();
    assert_eq!(e.code, ExitCode::InvalidInput);
    assert!(e
        .message
        .starts_with("Invalid track URI 'https://open.spotify.com/track/6rqhFgbbKwnb9MLmUQDhG6': "));
}

#[test]
fn plan_metadata_picks_kind() {
    let (_, k) = plan_metadata("spotify:album:7FwAtuhhWivxvK4aPgyyUD").unwrap();
    assert_eq!(k, MetadataKind::Album);
    let (_, k) = plan_metadata("https://open.spotify.com/artist/0OdUWJ0sBjDrqHygGUXeCF").unwrap();
    assert_eq!(k, MetadataKind::Artist);
    let (_, k) = plan_metadata("spotify:episode:512ojhOuo1ktJprKbVcKyQ").unwrap();
    assert_eq!(k, MetadataKind::Episode);
    assert!(plan_metadata("nonsense").is_err());
}

