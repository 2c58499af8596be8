use fetching_cli::metadata::{album_tracks, TrackAlbumDto, TrackDto};

fn track(name: &str) -> TrackDto {
    TrackDto {
        uri: format!("spotify:track:{name}"),
        name: name.to_string(),
        album: TrackAlbumDto {
            uri: String::new(),
            name: String::new(),
            artists: vec![],
            covers: vec![],
            date: String::new(),
            label: String::new(),
            external_ids: vec![],
        },
        artists: vec![],
        artists_with_role: vec![],
        number: 1,
        disc_number: 1,
        duration_ms: 0,
        popularity: 0,
        is_explicit: false,
        external_ids: vec![],
        files: vec![],
        previews: vec![],
        alternatives: vec![],
        tags: vec![],
        has_lyrics: false,
        language_of_performance: vec![],
        original_title: String::new(),
        version_title: String::new(),
    }
}

#[test]
fn album_keeps_fetched_tracks_in_order() {
    let tracks = album_tracks(vec![Some(track("a")), None, Some(track("b")), None]);
    let names: Vec<&str> = tracks.iter().map(|t| t.name.as_str()).collect();
    assert_eq!(names, vec!["a", "b"]);
    assert!(album_tracks(vec![None, None]).is_empty());
}
