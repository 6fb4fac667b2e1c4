use vstd::prelude::*;

use crate::block_cipher::{block_decrypt_pipeline, decrypt_aes128};
use crate::errors::NcmError;

verus! {

/// The fixed 16-byte AES key under which the metadata section is encrypted.
pub const AES_MODIFY_KEY: [u8; 16] = [
    0x23,
    0x31,
    0x34,
    0x6c,
    0x6a,
    0x6b,
    0x5f,
    0x21,
    0x5c,
    0x5d,
    0x26,
    0x30,
    0x55,
    0x3c,
    0x27,
    0x28,
];

/// `s` with its first `n` bytes discarded; empty when `s` is shorter.
pub open spec fn dropped_front(s: Seq<u8>, n: int) -> Seq<u8> {
    if n > s.len() {
        Seq::empty()
    } else {
        s.subrange(n, s.len() as int)
    }
}

/// Discards the first `n` bytes of `v`; empty when `v` is shorter.
pub fn drop_front(v: Vec<u8>, n: usize) -> (r: Vec<u8>)
    ensures
        r@ == dropped_front(v@, n as int),
{
    let mut out: Vec<u8> = Vec::new();
    if n > v.len() {
        assert(out@ =~= dropped_front(v@, n as int));
        return out;
    }
    let mut i: usize = n;
    while i < v.len()
        invariant
            n <= i <= v@.len(),
            out@.len() == i - n,
            forall|q: int| 0 <= q < out@.len() ==> out@[q] == v@[n + q],
        decreases v@.len() - i,
    {
        out.push(v[i]);
        i += 1;
    }
    assert(out@ =~= dropped_front(v@, n as int));
    out
}

/// What standard base64 decoding returns for the given input: the decoded
/// bytes, or nothing when the input is not valid base64. A function of the
/// input alone.
pub uninterp spec fn base64_decoding(s: Seq<u8>) -> Option<Seq<u8>>;

/// Relies on base64's Engine::decode with the STANDARD engine: the result is
/// a function of the input bytes alone.
#[verifier::external_body]
fn base64_decode(input: &Vec<u8>) -> (r: Option<Vec<u8>>)
    ensures
        match r {
            Some(v) => base64_decoding(input@) == Some(v@),
            None => base64_decoding(input@) is None,
        },
{
    base64::Engine::decode(&base64::engine::general_purpose::STANDARD, input.as_slice()).ok()
}

/// What UTF-8 decoding returns for the given bytes: their character
/// sequence, or nothing when the bytes are not valid UTF-8. A function of
/// the bytes alone.
pub uninterp spec fn utf8_decoding(s: Seq<u8>) -> Option<Seq<char>>;

/// Relies on str::from_utf8: the result is a function of the bytes alone.
#[verifier::external_body]
fn utf8_to_string(bytes: &Vec<u8>) -> (r: Option<String>)
    ensures
        match r {
            Some(t) => utf8_decoding(bytes@) == Some(t@),
            None => utf8_decoding(bytes@) is None,
        },
{
    match core::str::from_utf8(bytes.as_slice()) {
        Ok(s) => Some(s.to_owned()),
        Err(_) => None,
    }
}

/// Whether the given text parses as a JSON document: a function of the text
/// alone.
pub uninterp spec fn json_text_ok(s: Seq<char>) -> bool;

/// What looking the named string member up in the parsed document returns:
/// its text when the text parses and the member is a string value, nothing
/// otherwise. A function of the document text and the key alone.
pub uninterp spec fn json_str_field(text: Seq<char>, key: Seq<char>) -> Option<Seq<char>>;

/// What looking the named unsigned-number member up in the parsed document
/// returns. A function of the document text and the key alone.
pub uninterp spec fn json_u64_field(text: Seq<char>, key: Seq<char>) -> Option<u64>;

/// How many entries the document's artist member has (zero when the text
/// does not parse or the member is no array). A function of the text alone.
pub uninterp spec fn json_artist_count(text: Seq<char>) -> nat;

/// The name part of the `i`-th artist entry, each entry a pair whose first
/// element is the name; nothing when that element is no string. A function
/// of the text and the position alone.
pub uninterp spec fn json_artist_name(text: Seq<char>, i: int) -> Option<Seq<char>>;

/// Relies on json::parse: whether it succeeds depends on the text alone.
#[verifier::external_body]
fn json_text_check(text: &str) -> (r: bool)
    ensures
        r == json_text_ok(text@),
{
    json::parse(text).is_ok()
}

/// Relies on json::parse, json's Index by key (a missing member yields
/// Null) and JsonValue::as_str, all deterministic in the text and the key.
#[verifier::external_body]
fn json_str_field_of(text: &str, key: &str) -> (r: Option<String>)
    ensures
        match r {
            Some(s) => json_str_field(text@, key@) == Some(s@),
            None => json_str_field(text@, key@) is None,
        },
{
    json::parse(text).ok().and_then(|doc| doc[key].as_str().map(|s| s.to_owned()))
}

/// Relies on json::parse, json's Index by key and JsonValue::as_u64, all
/// deterministic in the text and the key.
#[verifier::external_body]
fn json_u64_field_of(text: &str, key: &str) -> (r: Option<u64>)
    ensures
        r == json_u64_field(text@, key@),
{
    json::parse(text).ok().and_then(|doc| doc[key].as_u64())
}

/// Relies on json::parse, json's Index by key and JsonValue::len (entry
/// count of an array, zero for every other value), all deterministic in the
/// text.
#[verifier::external_body]
fn json_artist_count_of(text: &str) -> (r: usize)
    ensures
        r as nat == json_artist_count(text@),
{
    match json::parse(text) {
        Ok(doc) => doc["artist"].len(),
        Err(_) => 0,
    }
}

/// Relies on json::parse, json's Index by key and by position (missing or
/// out-of-range yields Null) and JsonValue::as_str, all deterministic in the
/// text and the position.
#[verifier::external_body]
fn json_artist_name_of(text: &str, i: usize) -> (r: Option<String>)
    ensures
        match r {
            Some(s) => json_artist_name(text@, i as int) == Some(s@),
            None => json_artist_name(text@, i as int) is None,
        },
{
    json::parse(text).ok().and_then(|doc| doc["artist"][i][0].as_str().map(|s| s.to_owned()))
}

/// The track fields recovered from the metadata document.
pub struct TrackMetadata {
    /// The audio format the container carries, "mp3" or "flac".
    pub format: String,
    /// The track title; "?" when the document carries none.
    pub title: String,
    /// The album name; "?" when the document carries none.
    pub album: String,
    /// The artist names, in document order.
    pub artists: Vec<String>,
    /// Informational bitrate; 0 when the document carries none.
    pub bitrate: u64,
    /// Informational duration; 0 when the document carries none.
    pub duration: u64,
}

/// The text a field falls back to when the document carries none.
pub open spec fn text_or_question(o: Option<String>) -> Seq<char> {
    match o {
        Some(s) => s@,
        None => "?"@,
    }
}

/// The number a field falls back to when the document carries none.
pub open spec fn num_or_zero(o: Option<u64>) -> u64 {
    match o {
        Some(n) => n,
        None => 0u64,
    }
}

impl TrackMetadata {
    /// Assembles the metadata from the document's raw fields: a missing
    /// format is the one malformation, title and album default to "?", and
    /// the numeric fields default to 0.
    pub fn from_fields(
        format: Option<String>,
        title: Option<String>,
        album: Option<String>,
        artists: Vec<String>,
        bitrate: Option<u64>,
        duration: Option<u64>,
    ) -> (r: Result<TrackMetadata, NcmError>)
        ensures
            match format {
                None => r matches Err(e) && e == NcmError::MalformedMetadataDocument,
                Some(f) => r matches Ok(t) && t.format == f && t.title@ == text_or_question(title)
                    && t.album@ == text_or_question(album) && t.artists == artists && t.bitrate
                    == num_or_zero(bitrate) && t.duration == num_or_zero(duration),
            },
    {
        let f = match format {
            Some(f) => f,
            None => {
                return Err(NcmError::MalformedMetadataDocument);
            },
        };
        let t = match title {
            Some(t) => t,
            None => String::from_str("?"),
        };
        let a = match album {
            Some(a) => a,
            None => String::from_str("?"),
        };
        let b = match bitrate {
            Some(b) => b,
            None => 0u64,
        };
        let d = match duration {
            Some(d) => d,
            None => 0u64,
        };
        Ok(TrackMetadata { format: f, title: t, album: a, artists, bitrate: b, duration: d })
    }

    /// Whether the decoded track is MP3; anything else is handled as FLAC.
    pub fn is_mp3(&self) -> (r: bool)
        ensures
            r == (self.format@ == "mp3"@),
    {
        let m = String::from_str("mp3");
        self.format == m
    }
}

/// The failure, if any, the metadata pipeline's input forces: discard the
/// 22-byte header, base64-decode, block-decrypt under the modify key,
/// discard the 6-byte header, decode as UTF-8, parse as a document, and
/// require the document to carry a format field.
pub open spec fn metadata_decode_error(meta_blob: Seq<u8>) -> Option<NcmError> {
    match base64_decoding(dropped_front(meta_blob, 22)) {
        None => Some(NcmError::InvalidMetadataEncoding),
        Some(decoded) => match block_decrypt_pipeline(AES_MODIFY_KEY@, decoded) {
            None => Some(NcmError::MalformedCiphertext),
            Some(clear) => match utf8_decoding(dropped_front(clear, 6)) {
                None => Some(NcmError::InvalidMetadataText),
                Some(text) => if !json_text_ok(text) || json_str_field(text, "format"@) is None {
                    Some(NcmError::MalformedMetadataDocument)
                } else {
                    None
                },
            },
        },
    }
}

/// The document text of a metadata section: meaningful on the sections
/// whose staged pipeline reaches the text, which `metadata_decode_error`
/// tells apart.
pub open spec fn metadata_text(meta_blob: Seq<u8>) -> Seq<char> {
    utf8_decoding(
        dropped_front(
            block_decrypt_pipeline(
                AES_MODIFY_KEY@,
                base64_decoding(dropped_front(meta_blob, 22)).unwrap(),
            ).unwrap(),
            6,
        ),
    ).unwrap()
}

/// The string field's text, or the "?" fallback when the document carries
/// none.
pub open spec fn str_field_or_question(text: Seq<char>, key: Seq<char>) -> Seq<char> {
    match json_str_field(text, key) {
        Some(s) => s,
        None => "?"@,
    }
}

/// The numeric field's value, or 0 when the document carries none.
pub open spec fn u64_field_or_zero(text: Seq<char>, key: Seq<char>) -> u64 {
    match json_u64_field(text, key) {
        Some(n) => n,
        None => 0u64,
    }
}

/// The character sequences of a list of strings.
pub open spec fn text_views(ss: Seq<String>) -> Seq<Seq<char>> {
    ss.map_values(|s: String| s@)
}

/// The artist names among the document's first `n` entries, in order,
/// entries without a string name skipped.
pub open spec fn artist_names_up_to(text: Seq<char>, n: int) -> Seq<Seq<char>>
    decreases n,
{
    if n <= 0 {
        Seq::empty()
    } else {
        match json_artist_name(text, n - 1) {
            Some(name) => artist_names_up_to(text, n - 1).push(name),
            None => artist_names_up_to(text, n - 1),
        }
    }
}

/// All artist names the document carries, in order.
pub open spec fn artist_names_of(text: Seq<char>) -> Seq<Seq<char>> {
    artist_names_up_to(text, json_artist_count(text) as int)
}

/// What the decoded track fields hold for a document text: the format field
/// as it stands, title and album with the "?" fallback, the artist names in
/// order, and the numeric fields with the 0 fallback.
pub open spec fn metadata_fields_ok(text: Seq<char>, t: TrackMetadata) -> bool {
    &&& json_str_field(text, "format"@) == Some(t.format@)
    &&& t.title@ == str_field_or_question(text, "musicName"@)
    &&& t.album@ == str_field_or_question(text, "album"@)
    &&& text_views(t.artists@) == artist_names_of(text)
    &&& t.bitrate == u64_field_or_zero(text, "bitrate"@)
    &&& t.duration == u64_field_or_zero(text, "duration"@)
}

/// Decodes the deobfuscated metadata section into the track's fields. Every
/// failure the input forces, a missing format field included, is returned
/// exactly as `metadata_decode_error` names it; on every other input the
/// decode succeeds and each field equals its extraction from the document
/// text, defaults applied.
pub fn decode_track_metadata(meta_blob: Vec<u8>) -> (r: Result<TrackMetadata, NcmError>)
    ensures
        metadata_decode_error(meta_blob@) matches Some(e) ==> (r matches Err(e2) && e2 == e),
        metadata_decode_error(meta_blob@) is None ==> (r matches Ok(t) && metadata_fields_ok(
            metadata_text(meta_blob@),
            t,
        )),
{
    let b64in = drop_front(meta_blob, 22);
    let decoded = match base64_decode(&b64in) {
        Some(d) => d,
        None => {
            return Err(NcmError::InvalidMetadataEncoding);
        },
    };
    let clear = match decrypt_aes128(decoded, AES_MODIFY_KEY) {
        Ok(c) => c,
        Err(e) => {
            return Err(e);
        },
    };
    let text_bytes = drop_front(clear, 6);
    let text = match utf8_to_string(&text_bytes) {
        Some(t) => t,
        None => {
            return Err(NcmError::InvalidMetadataText);
        },
    };
    let ghost text_view = text@;
    assert(text_view == metadata_text(meta_blob@));
    if !json_text_check(text.as_str()) {
        return Err(NcmError::MalformedMetadataDocument);
    }
    let format = json_str_field_of(text.as_str(), "format");
    let title = json_str_field_of(text.as_str(), "musicName");
    let album = json_str_field_of(text.as_str(), "album");
    let bitrate = json_u64_field_of(text.as_str(), "bitrate");
    let duration = json_u64_field_of(text.as_str(), "duration");
    let n = json_artist_count_of(text.as_str());
    let mut artists: Vec<String> = Vec::new();
    let mut i: usize = 0;
    while i < n
        invariant
            i <= n,
            n as nat == json_artist_count(text_view),
            text_view == text@,
            text_views(artists@) == artist_names_up_to(text_view, i as int),
        decreases n - i,
    {
        let ghost before = artists@;
        match json_artist_name_of(text.as_str(), i) {
            Some(name) => {
                let ghost name_view = name@;
                artists.push(name);
                assert(text_views(artists@) =~= text_views(before).push(name_view));
            },
            None => {},
        }
        i += 1;
    }
    assert(text_views(artists@) == artist_names_of(text_view));
    TrackMetadata::from_fields(format, title, album, artists, bitrate, duration)
}

} // verus!
