//! Properties that relate several of the library's functions, or hold of all
//! their inputs, stated over the specifications those functions are proved
//! against.

use vstd::prelude::*;
use vstd::string::*;

use crate::audio::{
    first_non_hex, format_of, hex_byte_value, hex_decoded, is_hex_byte, lower_hex_text, spec_file_id,
    AudioFileEntry, AudioFormat,
};
use crate::auth::lifetime_secs;
use crate::cli::spec_plan;
use crate::credentials::expired_at;
use crate::error::{
    json_escape_char, json_escaped, json_quoted, lower_hex_digit, ExitCode, RequestErrorKind,
};
use crate::metadata::{fetch_failure_code, spec_metadata_kind, MetadataKind};
use crate::text::{
    after_stop, before_stop, is_hex_digit, is_white_space, stop_index, trim, trim_end, trim_start,
};
use crate::uri::{
    open_url_prefix, path_stops, slash, spec_classify, spec_item_type, spec_normalise, uri_scheme,
    url_item_id, url_item_type, url_path, SpotifyUriValue,
};

verus! {

/// Normalising is idempotent: a normalised URI normalises to itself.
pub proof fn law_normalise_idempotent(input: Seq<char>)
    ensures
        spec_normalise(input) matches Ok(u) ==> spec_normalise(u) == Ok::<Seq<char>, Seq<char>>(u),
{
    if let Ok(u) = spec_normalise(input) {
        if !uri_scheme().is_prefix_of(input) {
            let rest = u.subrange(uri_scheme().len() as int, u.len() as int);
            assert(u =~= uri_scheme() + rest);
            assert(u.subrange(0, uri_scheme().len() as int) =~= uri_scheme());
        }
    }
}

/// Every normalised URI starts with `spotify:`.
pub proof fn law_normalised_is_uri(input: Seq<char>)
    ensures
        spec_normalise(input) matches Ok(u) ==> uri_scheme().is_prefix_of(u),
{
    if let Ok(u) = spec_normalise(input) {
        if !uri_scheme().is_prefix_of(input) {
            assert(u.subrange(0, uri_scheme().len() as int) =~= uri_scheme());
        }
    }
}

/// The order of two positional arguments does not matter, unless neither of
/// them is recognised (then the first one is reported).
pub proof fn law_argument_order_irrelevant(a: Seq<char>, b: Seq<char>, interactive: bool)
    requires
        spec_classify(a) is Some || spec_classify(b) is Some,
    ensures
        spec_plan(seq![a, b], interactive) == spec_plan(seq![b, a], interactive),
{
    assert(seq![a, b][0] == a && seq![a, b][1] == b);
    assert(seq![b, a][0] == b && seq![b, a][1] == a);
}

/// Once expired, credentials stay expired as time goes on.
pub proof fn law_expiry_is_permanent(expires_at: u64, now: u64, later: u64)
    requires
        expired_at(expires_at, now),
        now <= later,
    ensures
        expired_at(expires_at, later),
{
}

/// Credentials made from a token that lives longer than the expiry margin are
/// not expired at the time they were made.
pub proof fn law_fresh_credentials_are_not_expired(now: u64, seconds_until_expiry: Option<u64>)
    requires
        now + lifetime_secs(seconds_until_expiry) <= u64::MAX,
        lifetime_secs(seconds_until_expiry) > 60,
    ensures
        !expired_at((now + lifetime_secs(seconds_until_expiry)) as u64, now),
{
}

/// Distinct exit codes exit with distinct numbers, all between 0 and 7.
pub proof fn law_exit_codes_distinct(a: ExitCode, b: ExitCode)
    ensures
        a.spec_code() <= 7,
        a.spec_code() == b.spec_code() ==> a == b,
{
}

/// A failed request to Spotify exits with 3 (network error) exactly when the
/// service could not be reached or did not answer in time, and with 4 (API
/// error) in every other case.
pub proof fn law_request_failure_exit_status(cause: RequestErrorKind)
    ensures
        fetch_failure_code(cause).spec_code() == 3 <==> (cause == RequestErrorKind::Unavailable
            || cause == RequestErrorKind::DeadlineExceeded),
        fetch_failure_code(cause).spec_code() == 3 || fetch_failure_code(cause).spec_code() == 4,
{
}

/// A message without quotes, backslashes or control characters appears in
/// the JSON error report exactly as it is, between quotes.
pub proof fn law_plain_message_is_quoted_verbatim(s: Seq<char>)
    requires
        forall|i: int|
            0 <= i < s.len() ==> (#[trigger] s[i]) != '"' && s[i] != '\\' && (s[i] as u32) >= 0x20,
    ensures
        json_quoted(s) == seq!['"'] + s + seq!['"'],
    decreases s.len(),
{
    lemma_plain_escaped(s);
}

proof fn lemma_plain_escaped(s: Seq<char>)
    requires
        forall|i: int|
            0 <= i < s.len() ==> (#[trigger] s[i]) != '"' && s[i] != '\\' && (s[i] as u32) >= 0x20,
    ensures
        json_escaped(s) == s,
    decreases s.len(),
{
    if s.len() > 0 {
        let t = s.drop_first();
        assert forall|i: int| 0 <= i < t.len() implies (#[trigger] t[i]) != '"' && t[i] != '\\'
            && (t[i] as u32) >= 0x20 by {
            assert(t[i] == s[i + 1]);
        }
        lemma_plain_escaped(t);
        assert(json_escape_char(s[0]) == seq![s[0]]);
        assert(seq![s[0]] + t =~= s);
    }
}

/// ASCII lowercase of a character.
pub open spec fn ascii_lower(c: char) -> char {
    if 'A' <= c <= 'Z' {
        ((c as u32) + 32) as char
    } else {
        c
    }
}

proof fn lemma_hex_digit_roundtrip(c: char)
    requires
        is_hex_digit(c),
    ensures
        is_hex_byte(c as u8),
        hex_byte_value(c as u8) < 16,
        lower_hex_digit(hex_byte_value(c as u8)) == ascii_lower(c),
{
}

proof fn lemma_byte_halves(hi: u8, lo: u8)
    requires
        hi < 16,
        lo < 16,
    ensures
        ((hi * 16 + lo) as u8) / 16 == hi,
        ((hi * 16 + lo) as u8) % 16 == lo,
{
    assert(((hi * 16 + lo) as u8) / 16 == hi && ((hi * 16 + lo) as u8) % 16 == lo) by (bit_vector)
        requires
            hi < 16,
            lo < 16,
    ;
}

proof fn lemma_hex_text_roundtrip(t: Seq<char>)
    requires
        t.len() % 2 == 0,
        forall|i: int| 0 <= i < t.len() ==> is_hex_digit(#[trigger] t[i]),
    ensures
        lower_hex_text(hex_decoded(t.map_values(|c: char| c as u8))) == t.map_values(
            |c: char| ascii_lower(c),
        ),
    decreases t.len(),
{
    let b = t.map_values(|c: char| c as u8);
    if t.len() > 0 {
        let rest = t.skip(2);
        assert forall|i: int| 0 <= i < rest.len() implies is_hex_digit(#[trigger] rest[i]) by {
            assert(rest[i] == t[i + 2]);
        }
        lemma_hex_text_roundtrip(rest);
        let rb = rest.map_values(|c: char| c as u8);
        assert(hex_decoded(b).drop_first() =~= hex_decoded(rb)) by {
            assert forall|i: int| 0 <= i < hex_decoded(rb).len() implies hex_decoded(b).drop_first()[i]
                == hex_decoded(rb)[i] by {
                assert(b[2 * (i + 1)] == rb[2 * i]);
                assert(b[2 * (i + 1) + 1] == rb[2 * i + 1]);
            }
        }
        assert(is_hex_digit(t[0]) && is_hex_digit(t[1]));
        lemma_hex_digit_roundtrip(t[0]);
        lemma_hex_digit_roundtrip(t[1]);
        lemma_byte_halves(hex_byte_value(b[0]), hex_byte_value(b[1]));
        let first = hex_decoded(b)[0];
        assert(first == (hex_byte_value(b[0]) * 16 + hex_byte_value(b[1])) as u8);
        assert(t.map_values(|c: char| ascii_lower(c)) =~= seq![ascii_lower(t[0]), ascii_lower(t[1])]
            + rest.map_values(|c: char| ascii_lower(c)));
    } else {
        assert(t.map_values(|c: char| ascii_lower(c)) =~= Seq::<char>::empty());
    }
}

proof fn lemma_all_hex(s: Seq<u8>)
    requires
        forall|i: int| 0 <= i < s.len() ==> is_hex_byte(#[trigger] s[i]),
    ensures
        first_non_hex(s) == s.len(),
    decreases s.len(),
{
    if s.len() > 0 {
        let t = s.drop_first();
        assert forall|i: int| 0 <= i < t.len() implies is_hex_byte(#[trigger] t[i]) by {
            assert(t[i] == s[i + 1]);
        }
        lemma_all_hex(t);
    }
}

/// A file ID given as 40 hexadecimal digits parses, and is reported back as
/// the same digits in lowercase.
pub proof fn law_file_id_roundtrip(s: &str)
    requires
        s@.len() == 40,
        forall|i: int| 0 <= i < s@.len() ==> is_hex_digit(#[trigger] s@[i]),
    ensures
        spec_file_id(s.spec_bytes()) matches Some(b) && lower_hex_text(b) == s@.map_values(
            |c: char| ascii_lower(c),
        ),
{
    broadcast use is_ascii_spec_bytes;

    assert(is_ascii(s)) by {
        assert forall|i| 0 <= i < s@.len() implies '\0' <= #[trigger] s@[i] <= '\u{7f}' by {
            assert(is_hex_digit(s@[i]));
        }
    }
    let b = s@.map_values(|c: char| c as u8);
    assert(s.spec_bytes() =~= b);
    assert forall|i: int| 0 <= i < b.len() implies is_hex_byte(#[trigger] b[i]) by {
        lemma_hex_digit_roundtrip(s@[i]);
    }
    lemma_all_hex(b);
    lemma_hex_text_roundtrip(s@);
}

/// The format found for a file ID is the format of a file with that ID, and
/// none is found exactly when no file has it.
pub proof fn law_found_format_belongs_to_file(files: Seq<AudioFileEntry>, id: Seq<u8>)
    ensures
        format_of(files, id) matches Some(f) ==> exists|i: int|
            0 <= i < files.len() && (#[trigger] files[i]).file_id@ == id && files[i].format == f,
        format_of(files, id) is None <==> forall|i: int|
            0 <= i < files.len() ==> (#[trigger] files[i]).file_id@ != id,
    decreases files.len(),
{
    if files.len() > 0 {
        let t = files.drop_first();
        law_found_format_belongs_to_file(t, id);
        if files[0].file_id@ != id {
            if let Some(f) = format_of(t, id) {
                let i = choose|i: int|
                    0 <= i < t.len() && (#[trigger] t[i]).file_id@ == id && t[i].format == f;
                assert(files[i + 1] == t[i]);
            }
            assert forall|i: int| 0 <= i < files.len() && (#[trigger] files[i]).file_id@ == id implies format_of(t, id) is Some by {
                assert(t[i - 1] == files[i]);
            }
        }
    }
}

/// No character of `s` occurs in `stops`.
pub open spec fn avoids(s: Seq<char>, stops: Seq<char>) -> bool {
    forall|i: int| 0 <= i < s.len() ==> !stops.contains(#[trigger] s[i])
}

proof fn lemma_stop_index_bound(s: Seq<char>, stops: Seq<char>)
    ensures
        stop_index(s, stops) <= s.len(),
        forall|i: int| 0 <= i < stop_index(s, stops) ==> !stops.contains(#[trigger] s[i]),
    decreases s.len(),
{
    if s.len() > 0 && !stops.contains(s[0]) {
        let t = s.drop_first();
        lemma_stop_index_bound(t, stops);
        assert forall|i: int| 0 <= i < stop_index(s, stops) implies !stops.contains(#[trigger] s[i]) by {
            if i > 0 {
                assert(s[i] == t[i - 1]);
            }
        }
    }
}

proof fn lemma_before_stop_avoids(s: Seq<char>, stops: Seq<char>)
    ensures
        avoids(before_stop(s, stops), stops),
{
    lemma_stop_index_bound(s, stops);
    let b = before_stop(s, stops);
    assert forall|i: int| 0 <= i < b.len() implies !stops.contains(#[trigger] b[i]) by {
        assert(b[i] == s[i]);
    }
}

proof fn lemma_skip_avoids(s: Seq<char>, stops: Seq<char>, k: int)
    requires
        avoids(s, stops),
        0 <= k <= s.len(),
    ensures
        avoids(s.skip(k), stops),
{
    assert forall|i: int| 0 <= i < s.skip(k).len() implies !stops.contains(#[trigger] s.skip(k)[i]) by {
        assert(s.skip(k)[i] == s[i + k]);
    }
}

proof fn lemma_trim_avoids(s: Seq<char>, stops: Seq<char>)
    requires
        avoids(s, stops),
    ensures
        avoids(trim(s), stops),
{
    lemma_trim_start_avoids(s, stops);
    lemma_trim_end_avoids(trim_start(s), stops);
}

proof fn lemma_trim_start_avoids(s: Seq<char>, stops: Seq<char>)
    requires
        avoids(s, stops),
    ensures
        avoids(trim_start(s), stops),
    decreases s.len(),
{
    if s.len() > 0 {
        lemma_skip_avoids(s, stops, 1);
        assert(s.skip(1) =~= s.drop_first());
        lemma_trim_start_avoids(s.drop_first(), stops);
    }
}

proof fn lemma_trim_end_avoids(s: Seq<char>, stops: Seq<char>)
    requires
        avoids(s, stops),
    ensures
        avoids(trim_end(s), stops),
    decreases s.len(),
{
    if s.len() > 0 {
        let t = s.drop_last();
        assert forall|i: int| 0 <= i < t.len() implies !stops.contains(#[trigger] t[i]) by {
            assert(t[i] == s[i]);
        }
        lemma_trim_end_avoids(t, stops);
    }
}

/// A web link loses its query string and fragment: the URI it is turned into
/// holds neither `?` nor `#`.
pub proof fn law_links_lose_query_and_fragment(input: Seq<char>)
    requires
        !uri_scheme().is_prefix_of(input),
    ensures
        spec_normalise(input) matches Ok(u) ==> avoids(u, path_stops()),
{
    if let Ok(u) = spec_normalise(input) {
        let rest = input.skip(open_url_prefix().len() as int);
        let path = url_path(input);
        lemma_before_stop_avoids(rest, path_stops());
        let head = before_stop(path, slash());
        assert(avoids(head, path_stops())) by {
            assert forall|i: int| 0 <= i < head.len() implies !path_stops().contains(#[trigger] head[i]) by {
                assert(head[i] == path[i]);
            }
        }
        lemma_trim_avoids(head, path_stops());
        match after_stop(path, slash()) {
            Some(tail) => {
                lemma_skip_avoids(path, path_stops(), stop_index(path, slash()) as int + 1);
                lemma_trim_avoids(tail, path_stops());
            },
            None => {},
        }
        let t = url_item_type(input);
        let id = url_item_id(input);
        reveal_strlit("spotify:");
        reveal_strlit(":");
        assert(u == uri_scheme() + t + ":"@ + id);
        assert forall|i: int| 0 <= i < u.len() implies !path_stops().contains(#[trigger] u[i]) by {
            let n = uri_scheme().len() as int;
            if i < n {
                assert(u[i] == uri_scheme()[i]);
            } else if i < n + t.len() {
                assert(u[i] == t[i - n]);
            } else if i == n + t.len() {
                assert(u[i] == ':');
            } else {
                assert(u[i] == id[i - n - t.len() - 1]);
            }
            assert(path_stops() =~= seq!['?', '#']);
        }
    }
}


proof fn lemma_stop_index_concat(a: Seq<char>, b: Seq<char>, stops: Seq<char>)
    requires
        avoids(a, stops),
    ensures
        stop_index(a + b, stops) == a.len() + stop_index(b, stops),
    decreases a.len(),
{
    if a.len() == 0 {
        assert(a + b =~= b);
    } else {
        let t = a.drop_first();
        assert((a + b).drop_first() =~= t + b);
        assert((a + b)[0] == a[0]);
        lemma_skip_avoids(a, stops, 1);
        assert(a.skip(1) =~= t);
        lemma_stop_index_concat(t, b, stops);
    }
}

proof fn lemma_trim_unchanged(s: Seq<char>)
    requires
        s.len() > 0,
        !is_white_space(s[0]),
        !is_white_space(s.last()),
    ensures
        trim(s) == s,
{
    assert(trim_start(s) == s);
    assert(trim_end(s) == s);
}

/// A link `https://open.spotify.com/{type}/{id}`, optionally followed by a
/// query string or fragment, becomes the URI `spotify:{type}:{id}`, whatever
/// the type and the ID are: any non-empty type without `/`, `?` or `#` and
/// any non-empty ID without `?` or `#`, neither with white space at its ends.
pub proof fn law_open_link_becomes_uri(item_type: Seq<char>, id: Seq<char>, tail: Seq<char>)
    requires
        item_type.len() > 0,
        id.len() > 0,
        avoids(item_type, seq!['/', '?', '#']),
        avoids(id, seq!['?', '#']),
        !is_white_space(item_type[0]),
        !is_white_space(item_type.last()),
        !is_white_space(id[0]),
        !is_white_space(id.last()),
        tail.len() == 0 || tail[0] == '?' || tail[0] == '#',
    ensures
        spec_normalise("https://open.spotify.com/"@ + item_type + "/"@ + id + tail) == Ok::<
            Seq<char>,
            Seq<char>,
        >("spotify:"@ + item_type + ":"@ + id),
{
    reveal_strlit("https://open.spotify.com/");
    reveal_strlit("spotify:");
    reveal_strlit("/");
    reveal_strlit(":");
    let prefix = open_url_prefix();
    let input = prefix + item_type + "/"@ + id + tail;
    assert(input[0] == 'h');
    assert(!uri_scheme().is_prefix_of(input)) by {
        assert(input.subrange(0, 8)[0] == 'h');
    }
    assert(prefix.is_prefix_of(input)) by {
        assert(input.subrange(0, prefix.len() as int) =~= prefix);
    }
    let head = item_type + seq!['/'] + id;
    let rest = input.skip(prefix.len() as int);
    assert(rest =~= head + tail);
    assert(avoids(head, path_stops())) by {
        assert forall|i: int| 0 <= i < head.len() implies !path_stops().contains(#[trigger] head[i]) by {
            if i < item_type.len() {
                assert(head[i] == item_type[i]);
                assert(!seq!['/', '?', '#'].contains(item_type[i]));
                if path_stops().contains(head[i]) {
                    let k = choose|k: int| 0 <= k < path_stops().len() && path_stops()[k] == head[i];
                    assert(seq!['/', '?', '#'][k + 1] == head[i]);
                }
            } else if i == item_type.len() {
                assert(head[i] == '/');
            } else {
                assert(head[i] == id[i - item_type.len() - 1]);
                assert(!seq!['?', '#'].contains(id[i - item_type.len() - 1]));
                assert(path_stops() =~= seq!['?', '#']);
            }
        }
    }
    lemma_stop_index_concat(head, tail, path_stops());
    if tail.len() > 0 {
        if tail[0] == '?' {
            assert(path_stops()[0] == '?');
        } else {
            assert(path_stops()[1] == '#');
        }
        assert(stop_index(tail, path_stops()) == 0);
    }
    let path = url_path(input);
    assert(path =~= head);
    assert(avoids(item_type, slash())) by {
        assert forall|i: int| 0 <= i < item_type.len() implies !slash().contains(#[trigger] item_type[i]) by {
            assert(!seq!['/', '?', '#'].contains(item_type[i]));
            if slash().contains(item_type[i]) {
                assert(slash()[0] == item_type[i]);
                assert(seq!['/', '?', '#'][0] == item_type[i]);
            }
        }
    }
    let after = seq!['/'] + id;
    assert(head =~= item_type + after);
    lemma_stop_index_concat(item_type, after, slash());
    assert(after[0] == '/');
    assert(slash()[0] == '/');
    assert(stop_index(after, slash()) == 0);
    assert(before_stop(path, slash()) =~= item_type);
    assert(path.skip(item_type.len() + 1int) =~= id);
    lemma_trim_unchanged(item_type);
    lemma_trim_unchanged(id);
    assert(url_item_type(input) == item_type);
    assert(url_item_id(input) == id);
}

/// A link to `open.spotify.com` is refused only when it names no item type or
/// no ID: every other link becomes `spotify:{type}:{id}`.
pub proof fn law_open_link_refused_only_when_empty(input: Seq<char>)
    requires
        open_url_prefix().is_prefix_of(input),
    ensures
        spec_normalise(input) is Err <==> (url_item_type(input).len() == 0 || url_item_id(
            input,
        ).len() == 0),
        spec_normalise(input) is Ok ==> spec_normalise(input) == Ok::<Seq<char>, Seq<char>>(
            "spotify:"@ + url_item_type(input) + ":"@ + url_item_id(input),
        ),
{
    reveal_strlit("https://open.spotify.com/");
    reveal_strlit("spotify:");
    assert(input[0] == 'h') by {
        assert(input.subrange(0, open_url_prefix().len() as int)[0] == 'h');
    }
    assert(!uri_scheme().is_prefix_of(input)) by {
        assert(input.subrange(0, 8)[0] == 'h');
    }
}

/// Every item type that has metadata maps to the kind of the same name, and
/// only local files and unknown item types have none.
pub proof fn law_metadata_kind_follows_item_type(u: SpotifyUriValue)
    ensures
        spec_metadata_kind(u) is None <==> (u is Local || u is Unknown),
        spec_metadata_kind(u) matches Some(k) ==> k.spec_noun() == spec_item_type(u),
        u is Track ==> spec_metadata_kind(u) == Some(MetadataKind::Track),
        u is Album ==> spec_metadata_kind(u) == Some(MetadataKind::Album),
        u is Playlist ==> spec_metadata_kind(u) == Some(MetadataKind::Playlist),
        u is Episode ==> spec_metadata_kind(u) == Some(MetadataKind::Episode),
        u is Show ==> spec_metadata_kind(u) == Some(MetadataKind::Show),
        u is Artist ==> spec_metadata_kind(u) == Some(MetadataKind::Artist),
{
}

/// Spotify's header is stripped from the three OGG Vorbis formats and from no
/// other: exactly the formats whose name starts with `OGG_VORBIS_`.
pub proof fn law_header_only_for_ogg_vorbis(f: AudioFormat)
    ensures
        f.spec_is_ogg_vorbis() <==> (f == AudioFormat::OGG_VORBIS_96 || f
            == AudioFormat::OGG_VORBIS_160 || f == AudioFormat::OGG_VORBIS_320),
        f.spec_is_ogg_vorbis() <==> "OGG_VORBIS_"@.is_prefix_of(f.spec_name()),
{
    reveal_strlit("OGG_VORBIS_");
    reveal_strlit("OGG_VORBIS_96");
    reveal_strlit("OGG_VORBIS_160");
    reveal_strlit("OGG_VORBIS_320");
    let p = "OGG_VORBIS_"@;
    let n = f.spec_name();
    if !f.spec_is_ogg_vorbis() {
        name_facts(f);
        if p.is_prefix_of(n) {
            assert(n.subrange(0, p.len() as int)[0] == n[0]);
            assert(n.subrange(0, p.len() as int)[1] == n[1]);
            assert(n.subrange(0, p.len() as int)[4] == n[4]);
        }
    } else {
        assert(n.subrange(0, p.len() as int) =~= p);
    }
}

/// The first, second and fifth characters of the name of a format that is
/// not OGG Vorbis, which tell it apart from `OGG_VORBIS_`.
proof fn name_facts(f: AudioFormat)
    requires
        !f.spec_is_ogg_vorbis(),
    ensures
        f.spec_name().len() < 11 || f.spec_name()[0] != 'O' || f.spec_name()[1] != 'G'
            || f.spec_name()[4] != 'V',
{
    reveal_strlit("MP3_256");
    reveal_strlit("MP3_320");
    reveal_strlit("MP3_160");
    reveal_strlit("MP3_96");
    reveal_strlit("MP3_160_ENC");
    reveal_strlit("AAC_24");
    reveal_strlit("AAC_48");
    reveal_strlit("FLAC_FLAC");
    reveal_strlit("XHE_AAC_24");
    reveal_strlit("XHE_AAC_16");
    reveal_strlit("XHE_AAC_12");
    reveal_strlit("FLAC_FLAC_24BIT");
    reveal_strlit("AAC_160");
    reveal_strlit("AAC_320");
    reveal_strlit("MP4_128");
    reveal_strlit("OTHER5");
}

/// Credentials count as expired exactly when at most sixty seconds are left
/// before their recorded expiry: always once that time has passed, never
/// while more than a minute remains, whatever the expiry time is.
pub proof fn law_expiry_margin_is_one_minute(expires_at: u64, now: u64)
    ensures
        expired_at(expires_at, now) <==> expires_at - now <= 60,
        now >= expires_at ==> expired_at(expires_at, now),
        expires_at > now + 60 ==> !expired_at(expires_at, now),
{
}

/// Each audio format is reported under the name of its variant, as
/// librespot's `Debug` writes it.
pub proof fn law_format_names_are_variant_names(f: AudioFormat)
    ensures
        f == AudioFormat::OGG_VORBIS_96 ==> f.spec_name() == "OGG_VORBIS_96"@,
        f == AudioFormat::OGG_VORBIS_160 ==> f.spec_name() == "OGG_VORBIS_160"@,
        f == AudioFormat::OGG_VORBIS_320 ==> f.spec_name() == "OGG_VORBIS_320"@,
        f == AudioFormat::MP3_256 ==> f.spec_name() == "MP3_256"@,
        f == AudioFormat::MP3_320 ==> f.spec_name() == "MP3_320"@,
        f == AudioFormat::MP3_160 ==> f.spec_name() == "MP3_160"@,
        f == AudioFormat::MP3_96 ==> f.spec_name() == "MP3_96"@,
        f == AudioFormat::MP3_160_ENC ==> f.spec_name() == "MP3_160_ENC"@,
        f == AudioFormat::AAC_24 ==> f.spec_name() == "AAC_24"@,
        f == AudioFormat::AAC_48 ==> f.spec_name() == "AAC_48"@,
        f == AudioFormat::FLAC_FLAC ==> f.spec_name() == "FLAC_FLAC"@,
        f == AudioFormat::XHE_AAC_24 ==> f.spec_name() == "XHE_AAC_24"@,
        f == AudioFormat::XHE_AAC_16 ==> f.spec_name() == "XHE_AAC_16"@,
        f == AudioFormat::XHE_AAC_12 ==> f.spec_name() == "XHE_AAC_12"@,
        f == AudioFormat::FLAC_FLAC_24BIT ==> f.spec_name() == "FLAC_FLAC_24BIT"@,
        f == AudioFormat::AAC_160 ==> f.spec_name() == "AAC_160"@,
        f == AudioFormat::AAC_320 ==> f.spec_name() == "AAC_320"@,
        f == AudioFormat::MP4_128 ==> f.spec_name() == "MP4_128"@,
        f == AudioFormat::OTHER5 ==> f.spec_name() == "OTHER5"@,
{
}

/// `s` is a non-empty run of decimal digits.
pub open spec fn is_digit_text(s: Seq<char>) -> bool {
    s.len() > 0 && forall|i: int| 0 <= i < s.len() ==> '0' <= #[trigger] s[i] <= '9'
}

/// The number a run of decimal digits stands for.
pub open spec fn digits_value(s: Seq<char>) -> nat
    decreases s.len(),
{
    if s.len() == 0 {
        0
    } else {
        digits_value(s.drop_last()) * 10 + ((s.last() as u32 - '0' as u32) as nat)
    }
}

/// The families of formats whose names end in a bitrate.
pub open spec fn is_bitrate_family(family: Seq<char>) -> bool {
    family == "OGG_VORBIS_"@ || family == "MP3_"@ || family == "AAC_"@ || family == "XHE_AAC_"@
}

/// `f`'s name is `family` followed by a bitrate.
pub open spec fn names_bitrate_in(f: AudioFormat, family: Seq<char>) -> bool {
    family.is_prefix_of(f.spec_name()) && is_digit_text(f.spec_name().skip(family.len() as int))
}

/// The bitrate `f`'s name states after `family`.
pub open spec fn stated_bitrate(f: AudioFormat, family: Seq<char>) -> nat {
    digits_value(f.spec_name().skip(family.len() as int))
}

/// Within a family of formats whose names end in a bitrate (OGG Vorbis, MP3,
/// AAC, xHE-AAC), the format whose name states the higher bitrate is the
/// preferred one: names and the order of preference agree.
pub proof fn law_names_state_bitrates_in_preference_order(
    f: AudioFormat,
    g: AudioFormat,
    family: Seq<char>,
)
    requires
        is_bitrate_family(family),
        names_bitrate_in(f, family),
        names_bitrate_in(g, family),
    ensures
        f.spec_rank() < g.spec_rank() <==> stated_bitrate(f, family) > stated_bitrate(g, family),
{
    reveal_strlit("OGG_VORBIS_");
    reveal_strlit("MP3_");
    reveal_strlit("AAC_");
    reveal_strlit("XHE_AAC_");
    assert("AAC_"@[0] != "MP3_"@[0]);
    assert("OGG_VORBIS_"@.len() != "MP3_"@.len() && "OGG_VORBIS_"@.len() != "AAC_"@.len());
    assert("XHE_AAC_"@.len() != "MP3_"@.len() && "XHE_AAC_"@.len() != "OGG_VORBIS_"@.len());
    lemma_bitrate_name(f, family);
    lemma_bitrate_name(g, family);
}

/// What the bitrate-naming of each format comes to.
proof fn lemma_bitrate_name(f: AudioFormat, family: Seq<char>)
    requires
        is_bitrate_family(family),
        names_bitrate_in(f, family),
    ensures
        match f {
            AudioFormat::OGG_VORBIS_96 => family == "OGG_VORBIS_"@ && stated_bitrate(f, family) == 96,
            AudioFormat::OGG_VORBIS_160 => family == "OGG_VORBIS_"@ && stated_bitrate(f, family) == 160,
            AudioFormat::OGG_VORBIS_320 => family == "OGG_VORBIS_"@ && stated_bitrate(f, family) == 320,
            AudioFormat::MP3_96 => family == "MP3_"@ && stated_bitrate(f, family) == 96,
            AudioFormat::MP3_160 => family == "MP3_"@ && stated_bitrate(f, family) == 160,
            AudioFormat::MP3_256 => family == "MP3_"@ && stated_bitrate(f, family) == 256,
            AudioFormat::MP3_320 => family == "MP3_"@ && stated_bitrate(f, family) == 320,
            AudioFormat::AAC_24 => family == "AAC_"@ && stated_bitrate(f, family) == 24,
            AudioFormat::AAC_48 => family == "AAC_"@ && stated_bitrate(f, family) == 48,
            AudioFormat::AAC_160 => family == "AAC_"@ && stated_bitrate(f, family) == 160,
            AudioFormat::AAC_320 => family == "AAC_"@ && stated_bitrate(f, family) == 320,
            AudioFormat::XHE_AAC_12 => family == "XHE_AAC_"@ && stated_bitrate(f, family) == 12,
            AudioFormat::XHE_AAC_16 => family == "XHE_AAC_"@ && stated_bitrate(f, family) == 16,
            AudioFormat::XHE_AAC_24 => family == "XHE_AAC_"@ && stated_bitrate(f, family) == 24,
            _ => false,
        },
{
    reveal_strlit("OGG_VORBIS_");
    reveal_strlit("MP3_");
    reveal_strlit("AAC_");
    reveal_strlit("XHE_AAC_");
    reveal_strlit("OGG_VORBIS_96");
    reveal_strlit("OGG_VORBIS_160");
    reveal_strlit("OGG_VORBIS_320");
    reveal_strlit("MP3_256");
    reveal_strlit("MP3_320");
    reveal_strlit("MP3_160");
    reveal_strlit("MP3_96");
    reveal_strlit("MP3_160_ENC");
    reveal_strlit("AAC_24");
    reveal_strlit("AAC_48");
    reveal_strlit("FLAC_FLAC");
    reveal_strlit("XHE_AAC_24");
    reveal_strlit("XHE_AAC_16");
    reveal_strlit("XHE_AAC_12");
    reveal_strlit("FLAC_FLAC_24BIT");
    reveal_strlit("AAC_160");
    reveal_strlit("AAC_320");
    reveal_strlit("MP4_128");
    reveal_strlit("OTHER5");
    let n = f.spec_name();
    let k = family.len() as int;
    let head = n.subrange(0, k);
    assert(head[0] == n[0] && head[1] == n[1] && head[2] == n[2] && head[3] == n[3]);
    assert(family[0] == n[0] && family[1] == n[1] && family[2] == n[2] && family[3] == n[3]);
    let rest = n.skip(k);
    if family == "OGG_VORBIS_"@ {
        assert(head[4] == n[4]);
    }
    if f == AudioFormat::MP3_160_ENC {
        assert(rest[3] == n[k + 3]);
    }
    reveal_with_fuel(digits_value, 4);
    match f {
        AudioFormat::OGG_VORBIS_96 | AudioFormat::MP3_96 | AudioFormat::AAC_24 | AudioFormat::AAC_48
        | AudioFormat::XHE_AAC_12 | AudioFormat::XHE_AAC_16 | AudioFormat::XHE_AAC_24 => {
            assert(rest =~= n.subrange(k, k + 2));
            assert(rest.drop_last() =~= seq![n[k]]);
        },
        AudioFormat::OGG_VORBIS_160 | AudioFormat::OGG_VORBIS_320 | AudioFormat::MP3_160
        | AudioFormat::MP3_256 | AudioFormat::MP3_320 | AudioFormat::AAC_160
        | AudioFormat::AAC_320 => {
            assert(rest.drop_last() =~= seq![n[k], n[k + 1]]);
            assert(rest.drop_last().drop_last() =~= seq![n[k]]);
        },
        _ => {},
    }
}

} // verus!
