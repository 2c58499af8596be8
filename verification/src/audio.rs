//! Audio downloads: file IDs, audio formats, the choice of format and file,
//! the OGG header that is stripped, and the error each failing step reports.

use vstd::prelude::*;
use vstd::string::*;

use librespot_core::FileId;

use crate::error::{lower_hex_digit, CliError, ExitCode, RequestErrorKind};
use crate::metadata::{fetch_failure_code, fetch_failure_exit_code, AudioFileDto};
use crate::text::{decimal, decimal_string};
use crate::uri::{parse_track_uri, spotify_uri_of, spotify_uri_text, uri_parse_failure, SpotifyUriValue};

verus! {

/// Buffer hint for opening an audio file: 320 kbps in bytes per second.
pub const AUDIO_BUFFER_HINT: usize = 320 * 1024 / 8;

/// Length of the proprietary Spotify header on OGG Vorbis files.
pub const SPOTIFY_OGG_HEADER_LEN: usize = 167;

/// The audio formats Spotify serves files in.
#[allow(non_camel_case_types)]
#[derive(Debug, Clone, Copy, PartialEq, Eq, Structural)]
pub enum AudioFormat {
    OGG_VORBIS_96,
    OGG_VORBIS_160,
    OGG_VORBIS_320,
    MP3_256,
    MP3_320,
    MP3_160,
    MP3_96,
    MP3_160_ENC,
    AAC_24,
    AAC_48,
    FLAC_FLAC,
    XHE_AAC_24,
    XHE_AAC_16,
    XHE_AAC_12,
    FLAC_FLAC_24BIT,
    AAC_160,
    AAC_320,
    MP4_128,
    OTHER5,
}

impl AudioFormat {
    /// The format's name as it is reported in metadata.
    pub open spec fn spec_name(self) -> Seq<char> {
        match self {
            AudioFormat::OGG_VORBIS_96 => "OGG_VORBIS_96"@,
            AudioFormat::OGG_VORBIS_160 => "OGG_VORBIS_160"@,
            AudioFormat::OGG_VORBIS_320 => "OGG_VORBIS_320"@,
            AudioFormat::MP3_256 => "MP3_256"@,
            AudioFormat::MP3_320 => "MP3_320"@,
            AudioFormat::MP3_160 => "MP3_160"@,
            AudioFormat::MP3_96 => "MP3_96"@,
            AudioFormat::MP3_160_ENC => "MP3_160_ENC"@,
            AudioFormat::AAC_24 => "AAC_24"@,
            AudioFormat::AAC_48 => "AAC_48"@,
            AudioFormat::FLAC_FLAC => "FLAC_FLAC"@,
            AudioFormat::XHE_AAC_24 => "XHE_AAC_24"@,
            AudioFormat::XHE_AAC_16 => "XHE_AAC_16"@,
            AudioFormat::XHE_AAC_12 => "XHE_AAC_12"@,
            AudioFormat::FLAC_FLAC_24BIT => "FLAC_FLAC_24BIT"@,
            AudioFormat::AAC_160 => "AAC_160"@,
            AudioFormat::AAC_320 => "AAC_320"@,
            AudioFormat::MP4_128 => "MP4_128"@,
            AudioFormat::OTHER5 => "OTHER5"@,
        }
    }

    /// The format's name as it is reported in metadata.
    pub fn name(&self) -> (r: &'static str)
        ensures
            r@ == self.spec_name(),
    {
        match self {
            AudioFormat::OGG_VORBIS_96 => "OGG_VORBIS_96",
            AudioFormat::OGG_VORBIS_160 => "OGG_VORBIS_160",
            AudioFormat::OGG_VORBIS_320 => "OGG_VORBIS_320",
            AudioFormat::MP3_256 => "MP3_256",
            AudioFormat::MP3_320 => "MP3_320",
            AudioFormat::MP3_160 => "MP3_160",
            AudioFormat::MP3_96 => "MP3_96",
            AudioFormat::MP3_160_ENC => "MP3_160_ENC",
            AudioFormat::AAC_24 => "AAC_24",
            AudioFormat::AAC_48 => "AAC_48",
            AudioFormat::FLAC_FLAC => "FLAC_FLAC",
            AudioFormat::XHE_AAC_24 => "XHE_AAC_24",
            AudioFormat::XHE_AAC_16 => "XHE_AAC_16",
            AudioFormat::XHE_AAC_12 => "XHE_AAC_12",
            AudioFormat::FLAC_FLAC_24BIT => "FLAC_FLAC_24BIT",
            AudioFormat::AAC_160 => "AAC_160",
            AudioFormat::AAC_320 => "AAC_320",
            AudioFormat::MP4_128 => "MP4_128",
            AudioFormat::OTHER5 => "OTHER5",
        }
    }

    /// Place of the format in the order of preference, best first: FLAC,
    /// FLAC 24-bit, OGG 320, AAC 320, MP3 320, OTHER5, MP3 256, OGG 160,
    /// AAC 160, MP3 160, MP3 160 (encrypted), MP4 128, OGG 96, MP3 96, AAC 48,
    /// AAC 24, xHE-AAC 24, 16 and 12.
    pub open spec fn spec_rank(self) -> nat {
        match self {
            AudioFormat::FLAC_FLAC => 0,
            AudioFormat::FLAC_FLAC_24BIT => 1,
            AudioFormat::OGG_VORBIS_320 => 2,
            AudioFormat::AAC_320 => 3,
            AudioFormat::MP3_320 => 4,
            AudioFormat::OTHER5 => 5,
            AudioFormat::MP3_256 => 6,
            AudioFormat::OGG_VORBIS_160 => 7,
            AudioFormat::AAC_160 => 8,
            AudioFormat::MP3_160 => 9,
            AudioFormat::MP3_160_ENC => 10,
            AudioFormat::MP4_128 => 11,
            AudioFormat::OGG_VORBIS_96 => 12,
            AudioFormat::MP3_96 => 13,
            AudioFormat::AAC_48 => 14,
            AudioFormat::AAC_24 => 15,
            AudioFormat::XHE_AAC_24 => 16,
            AudioFormat::XHE_AAC_16 => 17,
            AudioFormat::XHE_AAC_12 => 18,
        }
    }

    /// Place of the format in the order of preference, best first.
    pub fn preference_rank(&self) -> (r: u8)
        ensures
            r == self.spec_rank(),
    {
        match self {
            AudioFormat::FLAC_FLAC => 0,
            AudioFormat::FLAC_FLAC_24BIT => 1,
            AudioFormat::OGG_VORBIS_320 => 2,
            AudioFormat::AAC_320 => 3,
            AudioFormat::MP3_320 => 4,
            AudioFormat::OTHER5 => 5,
            AudioFormat::MP3_256 => 6,
            AudioFormat::OGG_VORBIS_160 => 7,
            AudioFormat::AAC_160 => 8,
            AudioFormat::MP3_160 => 9,
            AudioFormat::MP3_160_ENC => 10,
            AudioFormat::MP4_128 => 11,
            AudioFormat::OGG_VORBIS_96 => 12,
            AudioFormat::MP3_96 => 13,
            AudioFormat::AAC_48 => 14,
            AudioFormat::AAC_24 => 15,
            AudioFormat::XHE_AAC_24 => 16,
            AudioFormat::XHE_AAC_16 => 17,
            AudioFormat::XHE_AAC_12 => 18,
        }
    }

    /// The OGG Vorbis formats, whose files carry Spotify's own header.
    pub open spec fn spec_is_ogg_vorbis(self) -> bool {
        ||| self == AudioFormat::OGG_VORBIS_320
        ||| self == AudioFormat::OGG_VORBIS_160
        ||| self == AudioFormat::OGG_VORBIS_96
    }

    /// Whether the format is one of the OGG Vorbis formats.
    pub fn is_ogg_vorbis(&self) -> (r: bool)
        ensures
            r == self.spec_is_ogg_vorbis(),
    {
        match self {
            AudioFormat::OGG_VORBIS_320 | AudioFormat::OGG_VORBIS_160
            | AudioFormat::OGG_VORBIS_96 => true,
            _ => false,
        }
    }
}

impl AudioFormat {
    /// The AAC and MP4 formats, served in Spotify's proprietary container that
    /// standard media players do not play.
    pub open spec fn spec_is_proprietary_container(self) -> bool {
        ||| self == AudioFormat::AAC_24
        ||| self == AudioFormat::AAC_48
        ||| self == AudioFormat::AAC_160
        ||| self == AudioFormat::AAC_320
        ||| self == AudioFormat::MP4_128
    }

    /// Whether the format is served in Spotify's proprietary container.
    pub fn is_proprietary_container(&self) -> (r: bool)
        ensures
            r == self.spec_is_proprietary_container(),
    {
        match self {
            AudioFormat::AAC_24 | AudioFormat::AAC_48 | AudioFormat::AAC_160
            | AudioFormat::AAC_320 | AudioFormat::MP4_128 => true,
            _ => false,
        }
    }
}

/// One audio file of an item: its format and its 20-byte file ID.
#[derive(Debug, Clone, Copy)]
pub struct AudioFileEntry {
    pub format: AudioFormat,
    pub file_id: [u8; 20],
}

/// No format occurs twice among the files, as in the map an item's files
/// come from.
pub open spec fn formats_distinct(files: Seq<AudioFileEntry>) -> bool {
    forall|i: int, j: int|
        0 <= i < files.len() && 0 <= j < files.len() && i != j ==> (#[trigger] files[i]).format
            != (#[trigger] files[j]).format
}

// ── File IDs in hex ─────────────────────────────────────────────────────────

/// An ASCII hexadecimal digit, as a byte.
pub open spec fn is_hex_byte(b: u8) -> bool {
    ||| 48 <= b <= 57
    ||| 97 <= b <= 102
    ||| 65 <= b <= 70
}

/// The value of a hexadecimal digit byte.
pub open spec fn hex_byte_value(b: u8) -> u8 {
    if 48 <= b <= 57 {
        (b - 48) as u8
    } else if 97 <= b <= 102 {
        (b - 97 + 10) as u8
    } else {
        (b - 65 + 10) as u8
    }
}

/// The bytes that hexadecimal text encodes, two digits per byte, high first.
pub open spec fn hex_decoded(s: Seq<u8>) -> Seq<u8> {
    Seq::new(
        s.len() / 2,
        |i: int| (hex_byte_value(s[2 * i]) * 16 + hex_byte_value(s[2 * i + 1])) as u8,
    )
}

/// Why hexadecimal text does not decode, as `hex::FromHexError` tells.
#[derive(Debug, Clone, Copy, PartialEq, Eq, Structural)]
pub enum HexError {
    /// The byte at `index`, read as the character `c`, is not a hexadecimal
    /// digit.
    InvalidHexCharacter { c: char, index: usize },
    /// The number of digits is odd.
    OddLength,
    /// The text does not have the length a fixed-size output needs.
    InvalidStringLength,
}

/// Position of the first byte that is not a hexadecimal digit (the length
/// when every byte is one).
pub open spec fn first_non_hex(s: Seq<u8>) -> nat
    decreases s.len(),
{
    if s.len() == 0 || !is_hex_byte(s[0]) {
        0
    } else {
        1 + first_non_hex(s.drop_first())
    }
}

/// What `hex::decode` gives for bytes `s`: an odd number of them fails with
/// `OddLength`; otherwise the first byte that is not a hexadecimal digit fails
/// with `InvalidHexCharacter` at its position; otherwise the decoded bytes.
pub open spec fn hex_decode_result(s: Seq<u8>) -> Result<Seq<u8>, HexError> {
    let k = first_non_hex(s);
    if s.len() % 2 != 0 {
        Err(HexError::OddLength)
    } else if k < s.len() {
        Err(HexError::InvalidHexCharacter { c: s[k as int] as char, index: k as usize })
    } else {
        Ok(hex_decoded(s))
    }
}

/// `hex::decode` on the UTF-8 bytes of `s`, with its error told apart by
/// variant. The bytes decode when their number is even and each is a
/// hexadecimal digit of either case; each pair gives one byte, high digit
/// first. An odd number of bytes fails with `OddLength` before any digit is
/// looked at; otherwise the first byte that is not a digit fails with
/// `InvalidHexCharacter`, giving the byte as a character and its position.
#[verifier::external_body]
fn hex_decode(s: &str) -> (r: Result<Vec<u8>, HexError>)
    ensures
        match hex_decode_result(s.spec_bytes()) {
            Ok(bytes) => r matches Ok(v) && v@ == bytes,
            Err(e) => r == Err::<Vec<u8>, HexError>(e),
        },
{
    hex::decode(s).map_err(|e| match e {
        hex::FromHexError::InvalidHexCharacter { c, index } => HexError::InvalidHexCharacter {
            c,
            index,
        },
        hex::FromHexError::OddLength => HexError::OddLength,
        hex::FromHexError::InvalidStringLength => HexError::InvalidStringLength,
    })
}

/// How `hex::FromHexError` describes an error with `Display`.
pub uninterp spec fn hex_error_text(e: HexError) -> Seq<char>;

/// `Display` of `hex::FromHexError`: "Odd number of digits", "Invalid string
/// length", or "Invalid character {c:?} at position {index}"; the last is
/// only named here, since it writes the character with `Debug`.
#[verifier::external_body]
fn hex_error_display(e: HexError) -> (r: String)
    ensures
        r@ == hex_error_text(e),
        e == HexError::OddLength ==> r@ == "Odd number of digits"@,
        e == HexError::InvalidStringLength ==> r@ == "Invalid string length"@,
{
    match e {
        HexError::InvalidHexCharacter { c, index } => hex::FromHexError::InvalidHexCharacter {
            c,
            index,
        },
        HexError::OddLength => hex::FromHexError::OddLength,
        HexError::InvalidStringLength => hex::FromHexError::InvalidStringLength,
    }.to_string()
}

/// What `parse_file_id` accepts: 40 hexadecimal digits, giving 20 bytes.
pub open spec fn spec_file_id(s: Seq<u8>) -> Option<Seq<u8>> {
    match hex_decode_result(s) {
        Ok(bytes) => if bytes.len() == 20 {
            Some(bytes)
        } else {
            None
        },
        Err(_) => None,
    }
}

/// Message for hexadecimal text of the wrong length.
pub open spec fn file_id_length_message(text: Seq<char>, bytes: nat) -> Seq<char> {
    "File ID must be 20 bytes (40 hex chars), got "@ + decimal(bytes) + " bytes from '"@ + text
        + "'"@
}

/// The error `parse_file_id` reports for `s`.
pub open spec fn file_id_error(e: CliError, s: &str) -> bool {
    &&& e.code == ExitCode::InvalidInput
    &&& match hex_decode_result(s.spec_bytes()) {
        Ok(bytes) => {
            &&& e.message@ == file_id_length_message(s@, bytes.len())
            &&& e.source is None
        },
        Err(err) => {
            &&& e.message@ == "Invalid file ID hex '"@ + s@ + "': "@ + hex_error_text(err)
            &&& e.source matches Some(t) && t@ == hex_error_text(err)
        },
    }
}

/// Parse a file ID from its 40 hexadecimal digits.
pub fn parse_file_id(hex_str: &str) -> (r: Result<[u8; 20], CliError>)
    ensures
        match spec_file_id(hex_str.spec_bytes()) {
            Some(bytes) => r matches Ok(id) && id@ == bytes,
            None => r matches Err(e) && file_id_error(e, hex_str),
        },
{
    let bytes = match hex_decode(hex_str) {
        Ok(b) => b,
        Err(err) => {
            let detail = hex_error_display(err);
            let mut msg = String::from_str("Invalid file ID hex '");
            msg.append(hex_str);
            msg.append("': ");
            msg.append(detail.as_str());
            return Err(CliError::with_source(ExitCode::InvalidInput, msg, detail));
        },
    };
    if bytes.len() != 20 {
        let mut msg = String::from_str("File ID must be 20 bytes (40 hex chars), got ");
        let count = decimal_string(bytes.len());
        msg.append(count.as_str());
        msg.append(" bytes from '");
        msg.append(hex_str);
        msg.append("'");
        return Err(CliError::new(ExitCode::InvalidInput, msg));
    }
    let mut arr = [0u8; 20];
    let mut i: usize = 0;
    while i < 20
        invariant
            bytes.len() == 20,
            i <= 20,
            forall|j: int| 0 <= j < i ==> arr@[j] == bytes@[j],
        decreases 20 - i,
    {
        arr[i] = bytes[i];
        i = i + 1;
    }
    assert(arr@ =~= bytes@);
    Ok(arr)
}

/// Lowercase hexadecimal text of bytes, two digits per byte, high first.
pub open spec fn lower_hex_text(b: Seq<u8>) -> Seq<char>
    decreases b.len(),
{
    if b.len() == 0 {
        Seq::empty()
    } else {
        seq![lower_hex_digit(b[0] / 16), lower_hex_digit(b[0] % 16)] + lower_hex_text(
            b.drop_first(),
        )
    }
}

/// `Display` of `librespot_core::FileId`: the 20 bytes in lowercase
/// hexadecimal, two digits per byte, high first.
#[verifier::external_body]
fn file_id_display(id: &[u8; 20]) -> (r: String)
    ensures
        r@ == lower_hex_text(id@),
{
    FileId(*id).to_string()
}

/// The hexadecimal text a file ID is reported with.
pub fn file_id_text(id: &[u8; 20]) -> (r: String)
    ensures
        r@ == lower_hex_text(id@),
{
    file_id_display(id)
}

// ── Formats of files ────────────────────────────────────────────────────────

/// The format of the first file in `files` whose ID is `id`.
pub open spec fn format_of(files: Seq<AudioFileEntry>, id: Seq<u8>) -> Option<AudioFormat>
    decreases files.len(),
{
    if files.len() == 0 {
        None
    } else if files[0].file_id@ == id {
        Some(files[0].format)
    } else {
        format_of(files.drop_first(), id)
    }
}

/// Whether two file IDs are equal.
pub fn same_file_id(a: &[u8; 20], b: &[u8; 20]) -> (r: bool)
    ensures
        r == (a@ == b@),
{
    let mut i: usize = 0;
    while i < 20
        invariant
            i <= 20,
            forall|j: int| 0 <= j < i ==> a@[j] == b@[j],
        decreases 20 - i,
    {
        if a[i] != b[i] {
            return false;
        }
        i = i + 1;
    }
    assert(a@ =~= b@);
    true
}

/// The format of the first file in `files` whose ID is `id`.
fn format_in(id: &[u8; 20], files: &Vec<AudioFileEntry>) -> (r: Option<AudioFormat>)
    ensures
        r == format_of(files@, id@),
{
    let mut i: usize = 0;
    assert(files@.skip(0) =~= files@);
    while i < files.len()
        invariant
            i <= files.len(),
            format_of(files@, id@) == format_of(files@.skip(i as int), id@),
        decreases files.len() - i,
    {
        assert(files@.skip(i as int).drop_first() =~= files@.skip(i + 1));
        if same_file_id(&files[i].file_id, id) {
            return Some(files[i].format);
        }
        i = i + 1;
    }
    None
}

/// What `find_format_for_file_id` returns: the format found among the files,
/// else among the previews.
pub open spec fn spec_find_format(
    id: Seq<u8>,
    files: Seq<AudioFileEntry>,
    previews: Option<Seq<AudioFileEntry>>,
) -> Option<AudioFormat> {
    match format_of(files, id) {
        Some(f) => Some(f),
        None => match previews {
            Some(p) => format_of(p, id),
            None => None,
        },
    }
}

/// Find the format for a given file ID by checking the files of an item, then
/// its previews.
pub fn find_format_for_file_id(
    file_id: &[u8; 20],
    files: &Vec<AudioFileEntry>,
    previews: Option<&Vec<AudioFileEntry>>,
) -> (r: Option<AudioFormat>)
    ensures
        r == spec_find_format(
            file_id@,
            files@,
            match previews {
                Some(p) => Some(p@),
                None => None,
            },
        ),
{
    match format_in(file_id, files) {
        Some(f) => Some(f),
        None => match previews {
            Some(p) => format_in(file_id, p),
            None => None,
        },
    }
}

/// `i` is the position of the best file: its format ranks best, and no earlier
/// file ranks as well.
pub open spec fn is_best_position(files: Seq<AudioFileEntry>, i: int) -> bool {
    &&& 0 <= i < files.len()
    &&& forall|j: int| 0 <= j < files.len() ==> files[i].format.spec_rank() <= #[trigger] files[j].format.spec_rank()
    &&& forall|j: int| 0 <= j < i ==> files[i].format.spec_rank() < #[trigger] files[j].format.spec_rank()
}

/// The position of the best file.
fn best_position(files: &Vec<AudioFileEntry>) -> (r: usize)
    requires
        files.len() > 0,
    ensures
        is_best_position(files@, r as int),
{
    let mut best: usize = 0;
    let mut best_rank = files[0].format.preference_rank();
    let mut i: usize = 1;
    while i < files.len()
        invariant
            1 <= i <= files.len(),
            best < i,
            best_rank == files@[best as int].format.spec_rank(),
            forall|j: int| 0 <= j < i ==> best_rank <= #[trigger] files@[j].format.spec_rank(),
            forall|j: int| 0 <= j < best ==> best_rank < #[trigger] files@[j].format.spec_rank(),
        decreases files.len() - i,
    {
        let rank = files[i].format.preference_rank();
        if rank < best_rank {
            best = i;
            best_rank = rank;
        }
        i = i + 1;
    }
    best
}

/// Pick the best available file: the first of those whose format ranks best in
/// the order of preference.
pub fn best_format(files: &Vec<AudioFileEntry>) -> (r: Option<([u8; 20], AudioFormat)>)
    ensures
        r is None <==> files.len() == 0,
        r matches Some((id, f)) ==> exists|i: int|
            is_best_position(files@, i) && files@[i].file_id == id && files@[i].format == f,
        formats_distinct(files@) ==> (r matches Some((id, f)) ==> forall|i: int|
            0 <= i < files.len() && (#[trigger] files@[i]).format == f ==> files@[i].file_id
                == id),
{
    if files.len() == 0 {
        return None;
    }
    let i = best_position(files);
    assert(formats_distinct(files@) ==> forall|j: int|
        0 <= j < files.len() && (#[trigger] files@[j]).format == files@[i as int].format ==> j
            == i);
    Some((files[i].file_id, files[i].format))
}

/// The metadata entries of audio files: each format's name and the file ID in
/// hex.
pub fn audio_files_to_dto(files: &Vec<AudioFileEntry>) -> (r: Vec<AudioFileDto>)
    ensures
        r.len() == files.len(),
        forall|i: int|
            0 <= i < files.len() ==> (#[trigger] r@[i]).format@ == files@[i].format.spec_name()
                && r@[i].file_id@ == lower_hex_text(files@[i].file_id@),
{
    let mut out: Vec<AudioFileDto> = Vec::new();
    let mut i: usize = 0;
    while i < files.len()
        invariant
            i <= files.len(),
            out.len() == i,
            forall|j: int|
                0 <= j < i ==> (#[trigger] out@[j]).format@ == files@[j].format.spec_name()
                    && out@[j].file_id@ == lower_hex_text(files@[j].file_id@),
        decreases files.len() - i,
    {
        let entry = files[i];
        out.push(
            AudioFileDto {
                format: String::from_str(entry.format.name()),
                file_id: file_id_text(&entry.file_id),
            },
        );
        i = i + 1;
    }
    out
}

// ── Download plan ───────────────────────────────────────────────────────────

/// A checked download request: the file to fetch and the track or episode it
/// belongs to.
#[derive(Debug)]
pub struct AudioRequest {
    pub file_id: [u8; 20],
    /// The owning item: a `Track` or an `Episode`.
    pub item: SpotifyUriValue,
    /// The item's Spotify ID, which the audio key is requested for.
    pub spotify_id: u128,
}

/// The Spotify ID of a track or episode URI.
pub open spec fn playable_id(u: SpotifyUriValue) -> Option<u128> {
    match u {
        SpotifyUriValue::Track { id } => Some(id),
        SpotifyUriValue::Episode { id } => Some(id),
        _ => None,
    }
}

/// Message for a URI that is neither a track nor an episode.
pub open spec fn not_playable_message(u: SpotifyUriValue) -> Seq<char> {
    "URI must be a track or episode for audio download, got: "@ + spotify_uri_text(u)
}

/// Check the file ID and the owning URI of a download, in that order.
pub fn prepare_audio(file_id_hex: &str, track_uri: &str) -> (r: Result<AudioRequest, CliError>)
    ensures
        match spec_file_id(file_id_hex.spec_bytes()) {
            None => r matches Err(e) && file_id_error(e, file_id_hex),
            Some(bytes) => match spotify_uri_of(track_uri@) {
                None => r matches Err(e) && uri_parse_failure(
                    e,
                    "Invalid track URI '"@ + track_uri@ + "': "@,
                ),
                Some(u) => match playable_id(u) {
                    Some(id) => r matches Ok(req) && req.file_id@ == bytes && req.item == u
                        && req.spotify_id == id,
                    None => r matches Err(e) && e.code == ExitCode::InvalidInput && e.message@
                        == not_playable_message(u) && e.source is None,
                },
            },
        },
{
    let file_id = parse_file_id(file_id_hex)?;
    let item = parse_track_uri(track_uri)?;
    let spotify_id = match &item {
        SpotifyUriValue::Track { id } => *id,
        SpotifyUriValue::Episode { id } => *id,
        _ => {
            let mut msg = String::from_str("URI must be a track or episode for audio download, got: ");
            let text = item.into_text();
            msg.append(text.as_str());
            return Err(CliError::new(ExitCode::InvalidInput, msg));
        },
    };
    Ok(AudioRequest { file_id, item, spotify_id })
}

/// How a requested file is read: in which format, and how many leading bytes
/// of Spotify header are dropped.
#[derive(Debug)]
pub struct AudioPlan {
    pub format: AudioFormat,
    /// Whether the format was found among the item's files; when it was not,
    /// OGG Vorbis 320 is assumed.
    pub format_found: bool,
    pub header_len: usize,
    /// Whether the format uses Spotify's proprietary container, which
    /// standard media players do not play.
    pub proprietary_container: bool,
}

/// Resolve the format of the requested file from the item's files, assuming
/// OGG Vorbis 320 when it is not among them, and the header to strip.
pub fn plan_audio(file_id: &[u8; 20], files: &Vec<AudioFileEntry>) -> (r: AudioPlan)
    ensures
        match format_of(files@, file_id@) {
            Some(f) => r.format == f && r.format_found,
            None => r.format == AudioFormat::OGG_VORBIS_320 && !r.format_found,
        },
        r.header_len == (if r.format.spec_is_ogg_vorbis() {
            SPOTIFY_OGG_HEADER_LEN
        } else {
            0
        }),
        r.proprietary_container == r.format.spec_is_proprietary_container(),
        r.header_len == 167 <==> (r.format == AudioFormat::OGG_VORBIS_96 || r.format
            == AudioFormat::OGG_VORBIS_160 || r.format == AudioFormat::OGG_VORBIS_320),
        r.header_len == 0 || r.header_len == 167,
{
    let (format, format_found) = match find_format_for_file_id(file_id, files, None) {
        Some(f) => (f, true),
        None => (AudioFormat::OGG_VORBIS_320, false),
    };
    let header_len = if format.is_ogg_vorbis() {
        SPOTIFY_OGG_HEADER_LEN
    } else {
        0
    };
    let proprietary_container = format.is_proprietary_container();
    AudioPlan { format, format_found, header_len, proprietary_container }
}

/// Pick the file to download when none is named: the best available one, or
/// an API error when the item has no audio files.
pub fn choose_best_file(track_uri: &str, files: &Vec<AudioFileEntry>) -> (r: Result<
    ([u8; 20], AudioFormat),
    CliError,
>)
    ensures
        files.len() == 0 ==> (r matches Err(e) && e.code == ExitCode::ApiError && e.message@
            == "No audio files available for "@ + track_uri@ && e.source is None),
        r matches Ok((id, f)) ==> exists|i: int|
            is_best_position(files@, i) && files@[i].file_id == id && files@[i].format == f,
        files.len() > 0 ==> r is Ok,
        formats_distinct(files@) ==> (r matches Ok((id, f)) ==> forall|i: int|
            0 <= i < files.len() && (#[trigger] files@[i]).format == f ==> files@[i].file_id
                == id),
{
    match best_format(files) {
        Some(choice) => Ok(choice),
        None => {
            let mut msg = String::from_str("No audio files available for ");
            msg.append(track_uri);
            Err(CliError::new(ExitCode::ApiError, msg))
        },
    }
}

/// The steps of a download that can fail.
#[derive(Debug, Clone, Copy, PartialEq, Eq, Structural)]
pub enum AudioStage {
    /// Opening the encrypted audio stream.
    OpenFile,
    /// Requesting the decryption key.
    AudioKey,
    /// Reading the OGG header that is dropped.
    ReadHeader,
    /// Reading the decrypted audio.
    ReadStream,
    /// Writing audio to standard output.
    WriteOutput,
    /// Flushing standard output.
    FlushOutput,
    /// Writing audio to the output file.
    WriteFile,
    /// Flushing the output file.
    FlushFile,
}

/// The exit code a failing step reports.
pub open spec fn stage_code(stage: AudioStage) -> ExitCode {
    match stage {
        AudioStage::AudioKey => ExitCode::AudioKeyError,
        _ => ExitCode::AudioDownloadError,
    }
}

/// The message a failing step reports, before the cause's own message.
pub open spec fn stage_message(stage: AudioStage, track_uri: Seq<char>) -> Seq<char> {
    match stage {
        AudioStage::OpenFile => "Failed to open audio file: "@,
        AudioStage::AudioKey => "Audio key request failed for "@ + track_uri + ": "@,
        AudioStage::ReadHeader => "Failed to read OGG header: "@,
        AudioStage::ReadStream => "Read error during audio streaming: "@,
        AudioStage::WriteOutput => "Write error to stdout: "@,
        AudioStage::FlushOutput => "Failed to flush stdout: "@,
        AudioStage::WriteFile => "Write error to output file: "@,
        AudioStage::FlushFile => "Failed to flush output file: "@,
    }
}

/// The error reported when loading the item a download belongs to fails;
/// `cause` is the kind of the failure and `detail` its message.
pub fn item_load_failed(track_uri: &str, cause: RequestErrorKind, detail: &str) -> (r: CliError)
    ensures
        r.code == fetch_failure_code(cause),
        r.message@ == "Failed to load AudioItem for "@ + track_uri@ + ": "@ + detail@,
        r.source matches Some(s) && s@ == detail@,
{
    let mut msg = String::from_str("Failed to load AudioItem for ");
    msg.append(track_uri);
    msg.append(": ");
    msg.append(detail);
    CliError::with_source(fetch_failure_exit_code(cause), msg, String::from_str(detail))
}

/// The error reported when a step of the download of `track_uri` fails with
/// the cause `detail`.
pub fn audio_failure(stage: AudioStage, track_uri: &str, detail: &str) -> (r: CliError)
    ensures
        r.code == stage_code(stage),
        r.message@ == stage_message(stage, track_uri@) + detail@,
        r.source matches Some(s) && s@ == detail@,
{
    let (code, mut msg) = match stage {
        AudioStage::OpenFile => (
            ExitCode::AudioDownloadError,
            String::from_str("Failed to open audio file: "),
        ),
        AudioStage::AudioKey => {
            let mut m = String::from_str("Audio key request failed for ");
            m.append(track_uri);
            m.append(": ");
            (ExitCode::AudioKeyError, m)
        },
        AudioStage::ReadHeader => (
            ExitCode::AudioDownloadError,
            String::from_str("Failed to read OGG header: "),
        ),
        AudioStage::ReadStream => (
            ExitCode::AudioDownloadError,
            String::from_str("Read error during audio streaming: "),
        ),
        AudioStage::WriteOutput => (
            ExitCode::AudioDownloadError,
            String::from_str("Write error to stdout: "),
        ),
        AudioStage::FlushOutput => (
            ExitCode::AudioDownloadError,
            String::from_str("Failed to flush stdout: "),
        ),
        AudioStage::WriteFile => (
            ExitCode::AudioDownloadError,
            String::from_str("Write error to output file: "),
        ),
        AudioStage::FlushFile => (
            ExitCode::AudioDownloadError,
            String::from_str("Failed to flush output file: "),
        ),
    };
    msg.append(detail);
    CliError::with_source(code, msg, String::from_str(detail))
}

/// What a read from the decrypted stream gave.
#[derive(Debug)]
pub enum ReadEvent {
    /// `n` bytes were read; 0 means the stream has ended.
    Read(usize),
    /// The read was interrupted before any byte arrived.
    Interrupted,
    /// The read failed with this cause.
    Failed(String),
}

/// What the copy does next.
#[derive(Debug)]
pub enum CopyStep {
    /// Write the `len` bytes just read; `total` bytes will then have been
    /// copied.
    Write { len: usize, total: u64 },
    /// Read again.
    Retry,
    /// The stream has ended after `total` bytes; flush the output.
    Finish { total: u64 },
    /// Stop with this error.
    Fail(CliError),
}

/// One step of copying the decrypted stream to the output, from the number of
/// bytes copied so far and the outcome of the last read: data is written,
/// interrupted reads are retried, the end of the stream finishes the copy, and
/// any other failure stops it.
pub fn copy_step(total: u64, event: ReadEvent) -> (r: CopyStep)
    requires
        event matches ReadEvent::Read(n) ==> total + n <= u64::MAX,
    ensures
        match event {
            ReadEvent::Read(n) => if n == 0 {
                r matches CopyStep::Finish { total: t } && t == total
            } else {
                r matches CopyStep::Write { len, total: t } && len == n && t == total + n
            },
            ReadEvent::Interrupted => r is Retry,
            ReadEvent::Failed(d) => r matches CopyStep::Fail(e) && e.code == ExitCode::AudioDownloadError
                && e.message@ == "Read error during audio streaming: "@ + d@ && (e.source matches Some(src) && src@ == d@),
        },
{
    match event {
        ReadEvent::Read(n) => {
            if n == 0 {
                CopyStep::Finish { total }
            } else {
                CopyStep::Write { len: n, total: total + n as u64 }
            }
        },
        ReadEvent::Interrupted => CopyStep::Retry,
        ReadEvent::Failed(detail) => CopyStep::Fail(
            audio_failure(AudioStage::ReadStream, "", detail.as_str()),
        ),
    }
}

} // verus!
