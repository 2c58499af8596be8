//! Spotify identifiers: recognising command-line arguments, turning
//! `open.spotify.com` links into `spotify:` URIs, and parsing URIs with
//! librespot.

use vstd::prelude::*;
use vstd::string::*;

use librespot_core::{SpotifyId, SpotifyUri};

use crate::error::{CliError, ExitCode};
use crate::text::{
    after_stop, before_stop, chars_of, find_stop, is_hex_digit, is_hex_digit_char, starts_with,
    substring, trim, trim_bounds,
};

verus! {

/// The scheme every Spotify URI starts with.
pub open spec fn uri_scheme() -> Seq<char> {
    "spotify:"@
}

/// The prefix of the web links that are turned into URIs.
pub open spec fn open_url_prefix() -> Seq<char> {
    "https://open.spotify.com/"@
}

/// Characters that end the path of a link (query string, fragment).
pub open spec fn path_stops() -> Seq<char> {
    seq!['?', '#']
}

/// The separator between the item type and the ID in a link's path.
pub open spec fn slash() -> Seq<char> {
    seq!['/']
}

/// The path of an `open.spotify.com` link: what follows the prefix, up to the
/// first `?` or `#`.
pub open spec fn url_path(input: Seq<char>) -> Seq<char> {
    before_stop(input.skip(open_url_prefix().len() as int), path_stops())
}

/// The item type named by a link: the path up to its first `/`, trimmed.
pub open spec fn url_item_type(input: Seq<char>) -> Seq<char> {
    trim(before_stop(url_path(input), slash()))
}

/// The item ID named by a link: the path after its first `/`, trimmed (empty
/// when the path has no `/`).
pub open spec fn url_item_id(input: Seq<char>) -> Seq<char> {
    match after_stop(url_path(input), slash()) {
        Some(rest) => trim(rest),
        None => Seq::empty(),
    }
}

/// Message for a link whose type or ID is empty.
pub open spec fn bad_url_message(input: Seq<char>) -> Seq<char> {
    "Cannot parse Spotify URL — expected https://open.spotify.com/{type}/{id}, got: "@ + input
}

/// Message for an input that is neither a URI nor a link.
pub open spec fn unrecognised_message(input: Seq<char>) -> Seq<char> {
    "Unrecognised Spotify identifier '"@ + input
        + "' — expected a spotify:… URI or https://open.spotify.com/… URL"@
}

/// What `normalise_uri` returns: the URI, or the message of the error.
pub open spec fn spec_normalise(input: Seq<char>) -> Result<Seq<char>, Seq<char>> {
    if uri_scheme().is_prefix_of(input) {
        Ok(input)
    } else if open_url_prefix().is_prefix_of(input) {
        let item_type = url_item_type(input);
        let item_id = url_item_id(input);
        if item_type.len() == 0 || item_id.len() == 0 {
            Err(bad_url_message(input))
        } else {
            Ok(uri_scheme() + item_type + ":"@ + item_id)
        }
    } else {
        Err(unrecognised_message(input))
    }
}

/// An `InvalidInput` error without a cause, with message `msg`.
pub open spec fn invalid_input(e: CliError, msg: Seq<char>) -> bool {
    &&& e.code == ExitCode::InvalidInput
    &&& e.message@ == msg
    &&& e.source is None
}

/// Convert an `https://open.spotify.com/{type}/{id}` URL to a
/// `spotify:{type}:{id}` URI, stripping any query string or fragment.
///
/// Inputs that are already `spotify:` URIs are returned unchanged.
pub fn normalise_uri(input: &str) -> (r: Result<String, CliError>)
    ensures
        match spec_normalise(input@) {
            Ok(uri) => r matches Ok(s) && s@ == uri,
            Err(msg) => r matches Err(e) && invalid_input(e, msg),
        },
        open_url_prefix().is_prefix_of(input@) ==> (r is Err <==> (url_item_type(input@).len()
            == 0 || url_item_id(input@).len() == 0)),
{
    if starts_with(input, "spotify:") {
        proof {
            reveal_strlit("spotify:");
            reveal_strlit("https://open.spotify.com/");
            assert(input@.subrange(0, 8)[0] == 's');
            if open_url_prefix().is_prefix_of(input@) {
                assert(input@.subrange(0, open_url_prefix().len() as int)[0] == 'h');
            }
        }
        return Ok(String::from_str(input));
    }
    let prefix = "https://open.spotify.com/";
    if starts_with(input, prefix) {
        let cs = chars_of(input);
        let n = cs.len();
        let plen = prefix.unicode_len();
        let query = vec!['?', '#'];
        let sep = vec!['/'];
        let end = find_stop(&cs, plen, n, &query);
        let cut = find_stop(&cs, plen, end, &sep);
        let id_from = if cut < end {
            cut + 1
        } else {
            end
        };
        let (ta, tb) = trim_bounds(&cs, plen, cut);
        let (ia, ib) = trim_bounds(&cs, id_from, end);
        proof {
            let rest = input@.skip(plen as int);
            assert(rest =~= cs@.subrange(plen as int, n as int));
            assert(query@ =~= path_stops());
            assert(sep@ =~= slash());
            let path = url_path(input@);
            assert(path =~= cs@.subrange(plen as int, end as int));
            assert(before_stop(path, slash()) =~= cs@.subrange(plen as int, cut as int));
            if cut < end {
                assert(path.skip(cut - plen + 1) =~= cs@.subrange(id_from as int, end as int));
            } else {
                assert(cs@.subrange(id_from as int, end as int) =~= Seq::<char>::empty());
            }
        }
        if ta == tb || ia == ib {
            let mut msg = String::from_str(
                "Cannot parse Spotify URL — expected https://open.spotify.com/{type}/{id}, got: ",
            );
            msg.append(input);
            return Err(CliError::new(ExitCode::InvalidInput, msg));
        }
        let mut out = String::from_str("spotify:");
        let item_type = substring(input, ta, tb);
        let item_id = substring(input, ia, ib);
        out.append(item_type.as_str());
        out.append(":");
        out.append(item_id.as_str());
        return Ok(out);
    }
    let mut msg = String::from_str("Unrecognised Spotify identifier '");
    msg.append(input);
    msg.append("' — expected a spotify:… URI or https://open.spotify.com/… URL");
    Err(CliError::new(ExitCode::InvalidInput, msg))
}

/// What a command-line argument is taken to be.
#[derive(Debug)]
pub enum ArgKind {
    SpotifyTarget(String),
    FileId(String),
}

/// The argument names a Spotify item: a `spotify:` URI or an HTTP(S) link.
pub open spec fn is_spotify_target(arg: Seq<char>) -> bool {
    ||| uri_scheme().is_prefix_of(arg)
    ||| "https://"@.is_prefix_of(arg)
    ||| "http://"@.is_prefix_of(arg)
}

/// The argument is a non-empty run of hexadecimal digits.
pub open spec fn is_hex_text(arg: Seq<char>) -> bool {
    arg.len() > 0 && forall|i: int| 0 <= i < arg.len() ==> is_hex_digit(#[trigger] arg[i])
}

/// Message for an argument that is neither a target nor a file ID.
pub open spec fn unrecognised_argument_message(arg: Seq<char>) -> Seq<char> {
    "Unrecognised argument '"@ + arg + "': expected a Spotify URI/URL or a hex file ID."@
}

/// What `classify` makes of `arg`.
pub open spec fn spec_classify(arg: Seq<char>) -> Option<(bool, Seq<char>)> {
    if is_spotify_target(arg) {
        Some((true, arg))
    } else if is_hex_text(arg) {
        Some((false, arg))
    } else {
        None
    }
}

/// Whether every character of `s` is an ASCII hexadecimal digit.
pub fn all_hex_digits(s: &str) -> (r: bool)
    ensures
        r == (forall|i: int| 0 <= i < s@.len() ==> is_hex_digit(#[trigger] s@[i])),
{
    let cs = chars_of(s);
    let mut i: usize = 0;
    while i < cs.len()
        invariant
            cs@ == s@,
            i <= cs.len(),
            forall|j: int| 0 <= j < i ==> is_hex_digit(#[trigger] s@[j]),
        decreases cs.len() - i,
    {
        if !is_hex_digit_char(cs[i]) {
            return false;
        }
        i = i + 1;
    }
    true
}

/// Decide whether an argument is a Spotify URI/URL or a hex file ID.
pub fn classify(arg: &str) -> (r: Result<ArgKind, CliError>)
    ensures
        match spec_classify(arg@) {
            Some((true, a)) => r matches Ok(ArgKind::SpotifyTarget(s)) && s@ == a,
            Some((false, a)) => r matches Ok(ArgKind::FileId(s)) && s@ == a,
            None => r matches Err(e) && invalid_input(e, unrecognised_argument_message(arg@)),
        },
{
    if starts_with(arg, "spotify:") || starts_with(arg, "https://") || starts_with(arg, "http://") {
        Ok(ArgKind::SpotifyTarget(String::from_str(arg)))
    } else if !arg.is_empty() && all_hex_digits(arg) {
        Ok(ArgKind::FileId(String::from_str(arg)))
    } else {
        let mut msg = String::from_str("Unrecognised argument '");
        msg.append(arg);
        msg.append("': expected a Spotify URI/URL or a hex file ID.");
        Err(CliError::new(ExitCode::InvalidInput, msg))
    }
}

/// A parsed Spotify URI, holding what librespot's `SpotifyUri` holds as plain
/// values (a Spotify ID as its 128-bit number).
#[derive(Debug)]
pub enum SpotifyUriValue {
    Album { id: u128 },
    Artist { id: u128 },
    Episode { id: u128 },
    Playlist { user: Option<String>, id: u128 },
    Show { id: u128 },
    Track { id: u128 },
    Local {
        artist: String,
        album_title: String,
        track_title: String,
        duration: std::time::Duration,
    },
    Unknown { kind: String, id: String },
}

#[verifier::external_type_specification]
#[verifier::external_body]
pub struct ExCoreError(librespot_core::Error);

/// What `SpotifyUri::from_uri` makes of a text: the parsed URI, or `None`
/// where it returns an error.
pub uninterp spec fn spotify_uri_of(src: Seq<char>) -> Option<SpotifyUriValue>;

/// `librespot_core::SpotifyUri::from_uri`: parses `src` into a URI. The
/// contract claims only that the outcome is a function of the text.
#[verifier::external_body]
fn spotify_uri_from_str(src: &str) -> (r: Result<SpotifyUriValue, librespot_core::Error>)
    ensures
        r is Ok <==> spotify_uri_of(src@) is Some,
        r matches Ok(u) ==> spotify_uri_of(src@) == Some(u),
{
    Ok(match SpotifyUri::from_uri(src)? {
        SpotifyUri::Album { id } => SpotifyUriValue::Album { id: id.id },
        SpotifyUri::Artist { id } => SpotifyUriValue::Artist { id: id.id },
        SpotifyUri::Episode { id } => SpotifyUriValue::Episode { id: id.id },
        SpotifyUri::Playlist { user, id } => SpotifyUriValue::Playlist { user, id: id.id },
        SpotifyUri::Show { id } => SpotifyUriValue::Show { id: id.id },
        SpotifyUri::Track { id } => SpotifyUriValue::Track { id: id.id },
        SpotifyUri::Local { artist, album_title, track_title, duration } => SpotifyUriValue::Local {
            artist, album_title, track_title, duration },
        SpotifyUri::Unknown { kind, id } => SpotifyUriValue::Unknown { kind: kind.into(), id },
    })
}

/// How librespot's `SpotifyUri` writes a URI with `Display`.
pub uninterp spec fn spotify_uri_text(u: SpotifyUriValue) -> Seq<char>;

/// `Display` of `librespot_core::SpotifyUri`, on the URI that `u` stands for:
/// its canonical `spotify:...` text. The contract claims only that the text
/// is a function of the URI.
#[verifier::external_body]
fn spotify_uri_display(u: SpotifyUriValue) -> (r: String)
    ensures
        r@ == spotify_uri_text(u),
{
    let s = |id: u128| SpotifyId { id };
    match u {
        SpotifyUriValue::Album { id } => SpotifyUri::Album { id: s(id) },
        SpotifyUriValue::Artist { id } => SpotifyUri::Artist { id: s(id) },
        SpotifyUriValue::Episode { id } => SpotifyUri::Episode { id: s(id) },
        SpotifyUriValue::Playlist { user, id } => SpotifyUri::Playlist { user, id: s(id) },
        SpotifyUriValue::Show { id } => SpotifyUri::Show { id: s(id) },
        SpotifyUriValue::Track { id } => SpotifyUri::Track { id: s(id) },
        SpotifyUriValue::Local { artist, album_title, track_title, duration } =>
            SpotifyUri::Local { artist, album_title, track_title, duration },
        SpotifyUriValue::Unknown { kind, id } => SpotifyUri::Unknown { kind: kind.into(), id },
    }.to_string()
}

/// `Display` of `librespot_core::Error`: its message. Nothing is claimed of
/// the text.
#[verifier::external_body]
fn core_error_text(e: &librespot_core::Error) -> String {
    e.to_string()
}

/// The item type librespot reports for a URI.
pub open spec fn spec_item_type(u: SpotifyUriValue) -> Seq<char> {
    match u {
        SpotifyUriValue::Album { .. } => "album"@,
        SpotifyUriValue::Artist { .. } => "artist"@,
        SpotifyUriValue::Episode { .. } => "episode"@,
        SpotifyUriValue::Playlist { .. } => "playlist"@,
        SpotifyUriValue::Show { .. } => "show"@,
        SpotifyUriValue::Track { .. } => "track"@,
        SpotifyUriValue::Local { .. } => "local"@,
        SpotifyUriValue::Unknown { .. } => "unknown"@,
    }
}

impl SpotifyUriValue {
    /// The item type of this URI, as `SpotifyUri::item_type` names it.
    pub fn item_type(&self) -> (r: &'static str)
        ensures
            r@ == spec_item_type(*self),
    {
        match self {
            SpotifyUriValue::Album { .. } => "album",
            SpotifyUriValue::Artist { .. } => "artist",
            SpotifyUriValue::Episode { .. } => "episode",
            SpotifyUriValue::Playlist { .. } => "playlist",
            SpotifyUriValue::Show { .. } => "show",
            SpotifyUriValue::Track { .. } => "track",
            SpotifyUriValue::Local { .. } => "local",
            SpotifyUriValue::Unknown { .. } => "unknown",
        }
    }

    /// The canonical `spotify:` text of this URI.
    pub fn into_text(self) -> (r: String)
        ensures
            r@ == spotify_uri_text(self),
    {
        spotify_uri_display(self)
    }
}

/// `e` reports a URI that librespot could not parse: an `InvalidInput`
/// error whose message is `head` followed by librespot's own message, which
/// is kept as the cause.
pub open spec fn uri_parse_failure(e: CliError, head: Seq<char>) -> bool {
    &&& e.code == ExitCode::InvalidInput
    &&& e.source matches Some(s) && e.message@ == head + s@
}

/// Parse a Spotify URI with librespot; on failure, an `InvalidInput` error
/// whose message is `context`, `src`, `"': "` and librespot's own message,
/// which is kept as the cause.
fn parse_with_librespot(src: &str, context: &str) -> (r: Result<SpotifyUriValue, CliError>)
    ensures
        match spotify_uri_of(src@) {
            Some(u) => r matches Ok(v) && v == u,
            None => r matches Err(e) && uri_parse_failure(e, context@ + src@ + "': "@),
        },
{
    match spotify_uri_from_str(src) {
        Ok(u) => Ok(u),
        Err(err) => {
            let detail = core_error_text(&err);
            let mut msg = String::from_str(context);
            msg.append(src);
            msg.append("': ");
            msg.append(detail.as_str());
            Err(CliError::with_source(ExitCode::InvalidInput, msg, detail))
        },
    }
}

/// Normalise `input` and parse the resulting URI.
pub fn parse_uri(input: &str) -> (r: Result<SpotifyUriValue, CliError>)
    ensures
        match spec_normalise(input@) {
            Err(msg) => r matches Err(e) && invalid_input(e, msg),
            Ok(uri) => match spotify_uri_of(uri) {
                Some(u) => r matches Ok(v) && v == u,
                None => r matches Err(e) && uri_parse_failure(
                    e,
                    "Failed to parse Spotify URI '"@ + uri + "': "@,
                ),
            },
        },
{
    let normalised = normalise_uri(input)?;
    parse_with_librespot(normalised.as_str(), "Failed to parse Spotify URI '")
}

/// Parse a track or episode URI as given (no normalisation), as the audio
/// download does.
pub fn parse_track_uri(track_uri: &str) -> (r: Result<SpotifyUriValue, CliError>)
    ensures
        match spotify_uri_of(track_uri@) {
            Some(u) => r matches Ok(v) && v == u,
            None => r matches Err(e) && uri_parse_failure(e, "Invalid track URI '"@ + track_uri@ + "': "@),
        },
{
    parse_with_librespot(track_uri, "Invalid track URI '")
}

} // verus!
