use fetching_cli::audio::{
    audio_failure, audio_files_to_dto, best_format, choose_best_file, file_id_text,
    find_format_for_file_id, item_load_failed, parse_file_id, plan_audio, prepare_audio,
    AudioFileEntry, AudioFormat, AudioStage, AUDIO_BUFFER_HINT, SPOTIFY_OGG_HEADER_LEN,
};
use fetching_cli::audio::{copy_step, CopyStep, ReadEvent};
use fetching_cli::error::{ExitCode, RequestErrorKind};
use fetching_cli::uri::SpotifyUriValue;

const HEX40: &str = "0123456789abcdef0123456789ABCDEF01234567";

fn entry(format: AudioFormat, b: u8) -> AudioFileEntry {
    AudioFileEntry { format, file_id: [b; 20] }
}

#[test]
fn constants() {
    assert_eq!(AUDIO_BUFFER_HINT, 40_960);
    assert_eq!(SPOTIFY_OGG_HEADER_LEN, 0xa7);
}

#[test]
fn parse_file_id_decodes_both_cases() {
    let id = parse_file_id(HEX40).unwrap();
    assert_eq!(id[0], 0x01);
    assert_eq!(id[7], 0xef);
    assert_eq!(id[15], 0xef);
    assert_eq!(id[19], 0x67);
}

#[test]
fn file_id_round_trips_in_lowercase() {
    let id = parse_file_id(HEX40).unwrap();
    assert_eq!(file_id_text(&id), HEX40.to_ascii_lowercase());
}

#[test]
fn file_id_text_is_lowercase_hex() {
    assert_eq!(file_id_text(&[0xab; 20]), "ab".repeat(20));
}

#[test]
fn parse_file_id_rejects_bad_hex() {
    let e = parse_file_id("abc").unwrap_err();
    assert_eq!(e.code, ExitCode::InvalidInput);
    assert_eq!(e.message, "Invalid file ID hex 'abc': Odd number of digits");
    let e = parse_file_id("zz").unwrap_err();
    assert_eq!(e.message, "Invalid file ID hex 'zz': Invalid character 'z' at position 0");
    assert_eq!(e.source.as_deref(), Some("Invalid character 'z' at position 0"));
    let e = parse_file_id("0g").unwrap_err();
    assert_eq!(e.message, "Invalid file ID hex '0g': Invalid character 'g' at position 1");
}

#[test]
fn parse_file_id_rejects_wrong_length() {
    let e = parse_file_id("abcd").unwrap_err();
    assert_eq!(e.code, ExitCode::InvalidInput);
    assert_eq!(e.message, "File ID must be 20 bytes (40 hex chars), got 2 bytes from 'abcd'");
    let long = "00".repeat(21);
    let e = parse_file_id(&long).unwrap_err();
    assert_eq!(
        e.message,
        format!("File ID must be 20 bytes (40 hex chars), got 21 bytes from '{long}'")
    );
}

#[test]
fn find_format_prefers_files_then_previews() {
    let files = vec![entry(AudioFormat::MP3_320, 1), entry(AudioFormat::OGG_VORBIS_160, 2)];
    let previews = vec![entry(AudioFormat::MP3_96, 3)];
    assert_eq!(find_format_for_file_id(&[2; 20], &files, Some(&previews)), Some(AudioFormat::OGG_VORBIS_160));
    assert_eq!(find_format_for_file_id(&[3; 20], &files, Some(&previews)), Some(AudioFormat::MP3_96));
    assert_eq!(find_format_for_file_id(&[3; 20], &files, None), None);
    assert_eq!(find_format_for_file_id(&[9; 20], &files, Some(&previews)), None);
}

#[test]
fn best_format_follows_preference() {
    let files = vec![
        entry(AudioFormat::OGG_VORBIS_96, 1),
        entry(AudioFormat::OGG_VORBIS_320, 2),
        entry(AudioFormat::MP3_320, 3),
    ];
    assert_eq!(best_format(&files), Some(([2; 20], AudioFormat::OGG_VORBIS_320)));
    let files = vec![entry(AudioFormat::AAC_24, 1), entry(AudioFormat::FLAC_FLAC_24BIT, 2), entry(AudioFormat::FLAC_FLAC, 3)];
    assert_eq!(best_format(&files), Some(([3; 20], AudioFormat::FLAC_FLAC)));
    assert_eq!(best_format(&vec![]), None);
}

#[test]
fn choose_best_file_without_files_is_api_error() {
    let e = choose_best_file("spotify:track:x", &vec![]).unwrap_err();
    assert_eq!(e.code, ExitCode::ApiError);
    assert_eq!(e.message, "No audio files available for spotify:track:x");
    let ok = choose_best_file("spotify:track:x", &vec![entry(AudioFormat::MP3_96, 4)]).unwrap();
    assert_eq!(ok, ([4; 20], AudioFormat::MP3_96));
}

#[test]
fn plan_audio_strips_ogg_header_only() {
    let files = vec![entry(AudioFormat::MP3_320, 1), entry(AudioFormat::OGG_VORBIS_160, 2)];
    let p = plan_audio(&[2; 20], &files);
    assert_eq!(p.format, AudioFormat::OGG_VORBIS_160);
    assert!(p.format_found);
    assert_eq!(p.header_len, 167);
    assert!(!p.proprietary_container);
    let p = plan_audio(&[1; 20], &files);
    assert_eq!(p.format, AudioFormat::MP3_320);
    assert_eq!(p.header_len, 0);
    assert!(!p.proprietary_container);
}

#[test]
fn plan_audio_assumes_ogg_320_when_unknown() {
    let p = plan_audio(&[7; 20], &vec![]);
    assert_eq!(p.format, AudioFormat::OGG_VORBIS_320);
    assert!(!p.format_found);
    assert_eq!(p.header_len, 167);
}

#[test]
fn audio_files_to_dto_names_format_and_id() {
    let dto = audio_files_to_dto(&vec![entry(AudioFormat::MP3_160_ENC, 0x0f)]);
    assert_eq!(dto.len(), 1);
    assert_eq!(dto[0].format, "MP3_160_ENC");
    assert_eq!(dto[0].file_id, "0f".repeat(20));
}

#[test]
fn prepare_audio_accepts_track_and_episode() {
    let r = prepare_audio(HEX40, "spotify:track:6rqhFgbbKwnb9MLmUQDhG6").unwrap();
    assert!(matches!(r.item, SpotifyUriValue::Track { id } if id == r.spotify_id));
    assert_eq!(r.file_id[19], 0x67);
    let r = prepare_audio(HEX40, "spotify:episode:512ojhOuo1ktJprKbVcKyQ").unwrap();
    assert!(matches!(r.item, SpotifyUriValue::Episode { .. }));
}

#[test]
fn prepare_audio_rejects_other_items() {
    let e = prepare_audio(HEX40, "spotify:album:7FwAtuhhWivxvK4aPgyyUD").unwrap_err();
    assert_eq!(e.code, ExitCode::InvalidInput);
    assert_eq!(
        e.message,
        "URI must be a track or episode for audio download, got: spotify:album:7FwAtuhhWivxvK4aPgyyUD"
    );
}

#[test]
fn prepare_audio_checks_file_id_first() {
    let e = prepare_audio("xyz", "not a uri").unwrap_err();
    assert!(e.message.starts_with("Invalid file ID hex 'xyz'"));
    let e = prepare_audio(HEX40, "not a uri").unwrap_err();
    assert!(e.message.starts_with("Invalid track URI 'not a uri': "));
}

#[test]
fn audio_failures_have_codes_and_messages() {
    let e = item_load_failed("spotify:track:x", RequestErrorKind::NotFound, "gone");
    assert_eq!(e.code, ExitCode::ApiError);
    assert_eq!(e.message, "Failed to load AudioItem for spotify:track:x: gone");
    assert_eq!(e.source.as_deref(), Some("gone"));
    let e = item_load_failed("spotify:track:x", RequestErrorKind::DeadlineExceeded, "Deadline expired");
    assert_eq!(e.code, ExitCode::NetworkError);
    assert_eq!(e.message, "Failed to load AudioItem for spotify:track:x: Deadline expired");
    let e = item_load_failed("u", RequestErrorKind::Unavailable, "Service unavailable { client error (Connect) }");
    assert_eq!(e.code, ExitCode::NetworkError);
    let e = item_load_failed("u", RequestErrorKind::ResourceExhausted, "connection limit reached");
    assert_eq!(e.code, ExitCode::ApiError);
    let e = audio_failure(AudioStage::WriteFile, "u", "disk full");
    assert_eq!((e.code, e.message.as_str()), (ExitCode::AudioDownloadError, "Write error to output file: disk full"));
    let e = audio_failure(AudioStage::FlushFile, "u", "e");
    assert_eq!(e.message, "Failed to flush output file: e");
    let e = audio_failure(AudioStage::AudioKey, "spotify:track:x", "denied");
    assert_eq!(e.code, ExitCode::AudioKeyError);
    assert_eq!(e.message, "Audio key request failed for spotify:track:x: denied");
    let e = audio_failure(AudioStage::OpenFile, "u", "e");
    assert_eq!((e.code, e.message.as_str()), (ExitCode::AudioDownloadError, "Failed to open audio file: e"));
    let e = audio_failure(AudioStage::ReadHeader, "u", "e");
    assert_eq!(e.message, "Failed to read OGG header: e");
    let e = audio_failure(AudioStage::ReadStream, "u", "e");
    assert_eq!(e.message, "Read error during audio streaming: e");
    let e = audio_failure(AudioStage::WriteOutput, "u", "e");
    assert_eq!(e.message, "Write error to stdout: e");
    let e = audio_failure(AudioStage::FlushOutput, "u", "e");
    assert_eq!(e.message, "Failed to flush stdout: e");
    assert_eq!(e.source.as_deref(), Some("e"));
}

#[test]
fn format_names_and_ogg_formats() {
    assert_eq!(AudioFormat::XHE_AAC_12.name(), "XHE_AAC_12");
    assert!(AudioFormat::OGG_VORBIS_96.is_ogg_vorbis());
    assert!(!AudioFormat::MP3_96.is_ogg_vorbis());
    assert_eq!(AudioFormat::FLAC_FLAC.preference_rank(), 0);
    assert_eq!(AudioFormat::XHE_AAC_12.preference_rank(), 18);
}

#[test]
fn copy_steps() {
    assert!(matches!(copy_step(10, ReadEvent::Read(5)), CopyStep::Write { len: 5, total: 15 }));
    assert!(matches!(copy_step(10, ReadEvent::Read(0)), CopyStep::Finish { total: 10 }));
    assert!(matches!(copy_step(10, ReadEvent::Interrupted), CopyStep::Retry));
    match copy_step(0, ReadEvent::Failed("reset".into())) {
        CopyStep::Fail(e) => {
            assert_eq!(e.code, ExitCode::AudioDownloadError);
            assert_eq!(e.message, "Read error during audio streaming: reset");
            assert_eq!(e.source.as_deref(), Some("reset"));
        }
        other => panic!("unexpected {other:?}"),
    }
}

#[test]
fn aac_and_mp4_use_proprietary_container() {
    let files = vec![entry(AudioFormat::AAC_320, 1), entry(AudioFormat::MP4_128, 2), entry(AudioFormat::XHE_AAC_24, 3)];
    let p = plan_audio(&[1; 20], &files);
    assert_eq!(p.format, AudioFormat::AAC_320);
    assert!(p.proprietary_container);
    assert_eq!(p.header_len, 0);
    assert!(plan_audio(&[2; 20], &files).proprietary_container);
    assert!(!plan_audio(&[3; 20], &files).proprietary_container);
    assert!(AudioFormat::AAC_24.is_proprietary_container());
    assert!(!AudioFormat::OGG_VORBIS_320.is_proprietary_container());
}
