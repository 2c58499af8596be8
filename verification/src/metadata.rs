//! Metadata records as they are reported in JSON, and the choice of which
//! kind of item a Spotify URI asks for.

use vstd::prelude::*;
use vstd::string::*;

use crate::error::{CliError, ExitCode, RequestErrorKind};
use crate::uri::{
    invalid_input, parse_uri, spec_item_type, spec_normalise, spotify_uri_of, uri_parse_failure,
    SpotifyUriValue,
};

verus! {

/// Audio file entry: format → file ID.
#[derive(Debug)]
pub struct AudioFileDto {
    pub format: String,
    pub file_id: String,
}

/// Image/cover entry.
#[derive(Debug)]
pub struct ImageDto {
    pub file_id: String,
    pub size: String,
    pub width: i32,
    pub height: i32,
}

/// External ID (e.g. ISRC, UPC).
#[derive(Debug)]
pub struct ExternalIdDto {
    pub external_type: String,
    pub id: String,
}

/// Artist reference.
#[derive(Debug)]
pub struct ArtistDto {
    pub uri: String,
    pub name: String,
}

/// Artist with role.
#[derive(Debug)]
pub struct ArtistWithRoleDto {
    pub uri: String,
    pub name: String,
    pub role: String,
}

/// Copyright entry.
#[derive(Debug)]
pub struct CopyrightDto {
    pub copyright_type: String,
    pub text: String,
}

/// Disc with its tracks.
#[derive(Debug)]
pub struct DiscDto {
    pub number: i32,
    pub name: String,
    pub tracks: Vec<String>,
}

/// Sale period.
#[derive(Debug)]
pub struct SalePeriodDto {
    pub start: String,
    pub end: String,
}

/// Restriction entry.
#[derive(Debug)]
pub struct RestrictionDto {
    pub catalogue: String,
    pub countries_allowed: Option<String>,
    pub countries_forbidden: Option<String>,
}

/// Track metadata.
#[derive(Debug)]
pub struct TrackDto {
    pub uri: String,
    pub name: String,
    pub album: TrackAlbumDto,
    pub artists: Vec<ArtistDto>,
    pub artists_with_role: Vec<ArtistWithRoleDto>,
    pub number: i32,
    pub disc_number: i32,
    pub duration_ms: i32,
    pub popularity: i32,
    pub is_explicit: bool,
    pub external_ids: Vec<ExternalIdDto>,
    pub files: Vec<AudioFileDto>,
    pub previews: Vec<AudioFileDto>,
    pub alternatives: Vec<String>,
    pub tags: Vec<String>,
    pub has_lyrics: bool,
    pub language_of_performance: Vec<String>,
    pub original_title: String,
    pub version_title: String,
}

/// Album info embedded within a track (subset of full Album).
#[derive(Debug)]
pub struct TrackAlbumDto {
    pub uri: String,
    pub name: String,
    pub artists: Vec<ArtistDto>,
    pub covers: Vec<ImageDto>,
    pub date: String,
    pub label: String,
    pub external_ids: Vec<ExternalIdDto>,
}

/// Album metadata, with the metadata of each of its tracks that could be fetched.
#[derive(Debug)]
pub struct AlbumDto {
    pub uri: String,
    pub name: String,
    pub artists: Vec<ArtistDto>,
    pub album_type: String,
    pub label: String,
    pub date: String,
    pub popularity: i32,
    pub covers: Vec<ImageDto>,
    pub external_ids: Vec<ExternalIdDto>,
    pub discs: Vec<DiscDto>,
    pub copyrights: Vec<CopyrightDto>,
    pub reviews: Vec<String>,
    pub original_title: String,
    pub version_title: String,
    pub type_str: String,
    pub tracks: Vec<TrackDto>,
}

/// Biography entry.
#[derive(Debug)]
pub struct BiographyDto {
    pub text: String,
    pub portraits: Vec<ImageDto>,
}

/// Activity period entry.
#[derive(Debug)]
pub enum ActivityPeriodDto {
    Timespan { start_year: u16, end_year: Option<u16> },
    Decade { decade: u16 },
}

/// Top-tracks per country.
#[derive(Debug)]
pub struct TopTracksDto {
    pub country: String,
    pub track_uris: Vec<String>,
}

/// Full artist metadata (as opposed to the lightweight `ArtistDto` reference).
#[derive(Debug)]
pub struct FullArtistDto {
    pub uri: String,
    pub name: String,
    pub popularity: i32,
    pub top_tracks: Vec<TopTracksDto>,
    pub album_uris: Vec<String>,
    pub single_uris: Vec<String>,
    pub compilation_uris: Vec<String>,
    pub appears_on_album_uris: Vec<String>,
    pub external_ids: Vec<ExternalIdDto>,
    pub portraits: Vec<ImageDto>,
    pub biographies: Vec<BiographyDto>,
    pub activity_periods: Vec<ActivityPeriodDto>,
    pub related_artist_uris: Vec<String>,
    pub is_portrait_album_cover: bool,
}

/// Playlist metadata.
#[derive(Debug)]
pub struct PlaylistDto {
    pub uri: String,
    pub name: String,
    pub description: String,
    pub length: i32,
    pub track_uris: Vec<String>,
    pub is_collaborative: bool,
}

/// Podcast episode metadata.
#[derive(Debug)]
pub struct EpisodeDto {
    pub uri: String,
    pub name: String,
    pub description: String,
    pub duration_ms: i32,
    pub number: i32,
    pub publish_time: String,
    pub show_name: String,
    pub language: String,
    pub is_explicit: bool,
    pub covers: Vec<ImageDto>,
    pub audio_files: Vec<AudioFileDto>,
    pub audio_previews: Vec<AudioFileDto>,
    pub keywords: Vec<String>,
    pub external_url: String,
    pub episode_type: String,
    pub has_music_and_talk: bool,
    pub is_audiobook_chapter: bool,
}

/// Podcast show metadata.
#[derive(Debug)]
pub struct ShowDto {
    pub uri: String,
    pub name: String,
    pub description: String,
    pub publisher: String,
    pub language: String,
    pub is_explicit: bool,
    pub covers: Vec<ImageDto>,
    pub episode_uris: Vec<String>,
    pub copyrights: Vec<CopyrightDto>,
    pub keywords: Vec<String>,
    pub media_type: String,
    pub is_audiobook: bool,
    pub has_music_and_talk: bool,
}

/// The metadata of one item, tagged with its kind.
#[derive(Debug)]
pub enum MetadataOutput {
    Track(TrackDto),
    Album(AlbumDto),
    Playlist(PlaylistDto),
    Episode(EpisodeDto),
    Show(ShowDto),
    Artist(FullArtistDto),
}

/// The tracks of an album whose metadata could be fetched, in album order.
pub open spec fn fetched_tracks(results: Seq<Option<TrackDto>>) -> Seq<TrackDto>
    decreases results.len(),
{
    if results.len() == 0 {
        Seq::empty()
    } else {
        match results[0] {
            Some(t) => seq![t] + fetched_tracks(results.drop_first()),
            None => fetched_tracks(results.drop_first()),
        }
    }
}

/// The tracks an album is reported with: of the album's tracks, in order,
/// those whose metadata could be fetched (`None` marks a failed fetch, which
/// is skipped).
pub fn album_tracks(results: Vec<Option<TrackDto>>) -> (r: Vec<TrackDto>)
    ensures
        r@ == fetched_tracks(results@),
{
    let ghost all = results@;
    let mut rest = results;
    let mut out: Vec<TrackDto> = Vec::new();
    while rest.len() > 0
        invariant
            fetched_tracks(all) == out@ + fetched_tracks(rest@),
        decreases rest.len(),
    {
        let ghost before = rest@;
        let item = rest.remove(0);
        assert(rest@ =~= before.drop_first());
        match item {
            Some(t) => {
                out.push(t);
                assert(fetched_tracks(before) == seq![t] + fetched_tracks(rest@));
            },
            None => {},
        }
    }
    assert(out@ + fetched_tracks(rest@) =~= out@);
    out
}

/// The kinds of item whose metadata can be fetched.
#[derive(Debug, Clone, Copy, PartialEq, Eq, Structural)]
pub enum MetadataKind {
    Track,
    Album,
    Playlist,
    Episode,
    Show,
    Artist,
}

/// The kind of metadata a URI asks for; local files and unknown item types
/// have none.
pub open spec fn spec_metadata_kind(u: SpotifyUriValue) -> Option<MetadataKind> {
    match u {
        SpotifyUriValue::Track { .. } => Some(MetadataKind::Track),
        SpotifyUriValue::Album { .. } => Some(MetadataKind::Album),
        SpotifyUriValue::Playlist { .. } => Some(MetadataKind::Playlist),
        SpotifyUriValue::Episode { .. } => Some(MetadataKind::Episode),
        SpotifyUriValue::Show { .. } => Some(MetadataKind::Show),
        SpotifyUriValue::Artist { .. } => Some(MetadataKind::Artist),
        _ => None,
    }
}

/// Message for a URI whose item type has no metadata.
pub open spec fn unsupported_type_message(u: SpotifyUriValue) -> Seq<char> {
    "Unsupported Spotify item type: '"@ + spec_item_type(u) + "'"@
}

impl MetadataKind {
    /// The word the kind is named by in messages.
    pub open spec fn spec_noun(self) -> Seq<char> {
        match self {
            MetadataKind::Track => "track"@,
            MetadataKind::Album => "album"@,
            MetadataKind::Playlist => "playlist"@,
            MetadataKind::Episode => "episode"@,
            MetadataKind::Show => "show"@,
            MetadataKind::Artist => "artist"@,
        }
    }

    /// The word the kind is named by in messages.
    pub fn noun(&self) -> (r: &'static str)
        ensures
            r@ == self.spec_noun(),
    {
        match self {
            MetadataKind::Track => "track",
            MetadataKind::Album => "album",
            MetadataKind::Playlist => "playlist",
            MetadataKind::Episode => "episode",
            MetadataKind::Show => "show",
            MetadataKind::Artist => "artist",
        }
    }
}

/// The kind of metadata a URI asks for, or an `InvalidInput` error naming its
/// unsupported item type.
pub fn metadata_kind(uri: &SpotifyUriValue) -> (r: Result<MetadataKind, CliError>)
    ensures
        match spec_metadata_kind(*uri) {
            Some(k) => r == Ok::<MetadataKind, CliError>(k),
            None => r matches Err(e) && invalid_input(e, unsupported_type_message(*uri)),
        },
        r is Err <==> (*uri is Local || *uri is Unknown),
        r matches Ok(k) ==> k.spec_noun() == spec_item_type(*uri),
{
    match uri {
        SpotifyUriValue::Track { .. } => Ok(MetadataKind::Track),
        SpotifyUriValue::Album { .. } => Ok(MetadataKind::Album),
        SpotifyUriValue::Playlist { .. } => Ok(MetadataKind::Playlist),
        SpotifyUriValue::Episode { .. } => Ok(MetadataKind::Episode),
        SpotifyUriValue::Show { .. } => Ok(MetadataKind::Show),
        SpotifyUriValue::Artist { .. } => Ok(MetadataKind::Artist),
        _ => {
            let mut msg = String::from_str("Unsupported Spotify item type: '");
            msg.append(uri.item_type());
            msg.append("'");
            Err(CliError::new(ExitCode::InvalidInput, msg))
        },
    }
}

/// Resolve what a metadata request asks for: the parsed URI of the input and
/// the kind of item to fetch.
pub fn plan_metadata(input: &str) -> (r: Result<(SpotifyUriValue, MetadataKind), CliError>)
    ensures
        match spec_normalise(input@) {
            Err(msg) => r matches Err(e) && invalid_input(e, msg),
            Ok(uri) => match spotify_uri_of(uri) {
                None => r matches Err(e) && uri_parse_failure(
                    e,
                    "Failed to parse Spotify URI '"@ + uri + "': "@,
                ),
                Some(u) => match spec_metadata_kind(u) {
                    Some(k) => r matches Ok((v, kind)) && v == u && kind == k,
                    None => r matches Err(e) && invalid_input(e, unsupported_type_message(u)),
                },
            },
        },
{
    let uri = parse_uri(input)?;
    let kind = metadata_kind(&uri)?;
    Ok((uri, kind))
}

/// The exit code a failed request to Spotify is reported with: a network
/// error when it failed on the network, else an API error.
pub open spec fn fetch_failure_code(cause: RequestErrorKind) -> ExitCode {
    if cause.spec_is_network() {
        ExitCode::NetworkError
    } else {
        ExitCode::ApiError
    }
}

/// The exit code a failed request to Spotify is reported with.
pub fn fetch_failure_exit_code(cause: RequestErrorKind) -> (r: ExitCode)
    ensures
        r == fetch_failure_code(cause),
{
    if cause.is_network() {
        ExitCode::NetworkError
    } else {
        ExitCode::ApiError
    }
}

/// The error reported when fetching an item's metadata fails; `cause` is the
/// kind of the failure and `detail` its message.
pub fn metadata_fetch_failed(kind: MetadataKind, cause: RequestErrorKind, detail: &str) -> (r:
    CliError)
    ensures
        r.code == fetch_failure_code(cause),
        r.message@ == "Failed to fetch "@ + kind.spec_noun() + " metadata: "@ + detail@,
        r.source matches Some(s) && s@ == detail@,
{
    let code = fetch_failure_exit_code(cause);
    let mut msg = String::from_str("Failed to fetch ");
    msg.append(kind.noun());
    msg.append(" metadata: ");
    msg.append(detail);
    CliError::with_source(code, msg, String::from_str(detail))
}

} // verus!
