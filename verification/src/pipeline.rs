use vstd::prelude::*;

use crate::block_cipher::{block_decrypt_pipeline, decrypt_aes128};
use crate::container::{magic_ok, parse_container, parsed_container, Container};
use crate::cover::{classified_cover, classify_cover, MediaType};
use crate::errors::NcmError;
use crate::key_schedule::{build_key_box, key_schedule};
use crate::metadata::{
    decode_track_metadata, drop_front, dropped_front, metadata_decode_error, metadata_fields_ok,
    metadata_text, TrackMetadata,
};
use crate::stream_cipher::{decrypt_audio, stream_decrypted};

verus! {

/// The fixed 16-byte AES key under which the container's key section is
/// encrypted.
pub const AES_CORE_KEY: [u8; 16] = [
    0x68,
    0x7a,
    0x48,
    0x52,
    0x41,
    0x6d,
    0x73,
    0x6f,
    0x35,
    0x6b,
    0x49,
    0x6e,
    0x62,
    0x61,
    0x78,
    0x57,
];

/// The bytes the key schedule is built from: the key section block-decrypted
/// under the core key, its fixed 17-byte prefix discarded. Nothing when the
/// block decryption fails.
pub open spec fn key_material_of(bytes: Seq<u8>) -> Option<Seq<u8>> {
    match block_decrypt_pipeline(AES_CORE_KEY@, parsed_container(bytes).key_blob) {
        None => None,
        Some(d) => Some(dropped_front(d, 17)),
    }
}

/// The cleartext audio for a container whose key material decrypts and is
/// non-empty: the raw audio stream under the keystream of that material's
/// schedule.
pub open spec fn clear_audio_of(bytes: Seq<u8>) -> Seq<u8> {
    stream_decrypted(key_schedule(key_material_of(bytes).unwrap()), parsed_container(bytes).audio)
}

/// The decoding failure a container's bytes are doomed to, if any: a missing
/// signature, failing key decryption, empty key material, or a metadata
/// failure when a metadata section is present. Nothing here depends on the
/// machine: equal bytes give the equal outcome.
pub open spec fn decode_error_of(bytes: Seq<u8>) -> Option<NcmError> {
    if !magic_ok(bytes) {
        Some(NcmError::NotContainerFormat)
    } else {
        match key_material_of(bytes) {
            None => Some(NcmError::MalformedCiphertext),
            Some(km) => if km.len() == 0 {
                Some(NcmError::EmptyKeyMaterial)
            } else if parsed_container(bytes).meta_blob.len() == 0 {
                None
            } else {
                metadata_decode_error(parsed_container(bytes).meta_blob)
            },
        }
    }
}

/// The aggregate result of decoding one container: the cleartext audio, the
/// track fields when a metadata section was present, and the cover with its
/// sniffed media type.
pub struct DecodedTrack {
    pub audio: Vec<u8>,
    pub metadata: Option<TrackMetadata>,
    pub cover: Vec<u8>,
    pub cover_type: Option<MediaType>,
}

/// What a successfully decoded track holds for the given container bytes:
/// the exact audio, the cover and its classification, and, when a metadata
/// section is present, the exact track fields of its document.
pub open spec fn decoded_track_matches(bytes: Seq<u8>, t: DecodedTrack) -> bool {
    let meta_blob = parsed_container(bytes).meta_blob;
    &&& t.audio@ == clear_audio_of(bytes)
    &&& t.cover@ == parsed_container(bytes).cover
    &&& t.cover_type == classified_cover(parsed_container(bytes).cover)
    &&& (meta_blob.len() == 0 ==> t.metadata is None)
    &&& (meta_blob.len() > 0 ==> (t.metadata matches Some(m) && metadata_fields_ok(
        metadata_text(meta_blob),
        m,
    )))
}

/// Runs the whole pipeline on one container's bytes: parse the sections,
/// decrypt the key section and build the key schedule, decrypt the audio,
/// decode the metadata when a metadata section is present, and classify the
/// cover. Every failure the input bytes force is returned exactly as
/// `decode_error_of` names it; on every other input the decode succeeds and
/// the track holds exactly what `decoded_track_matches` says.
pub fn decode_ncm(bytes: &Vec<u8>) -> (r: Result<DecodedTrack, NcmError>)
    ensures
        decode_error_of(bytes@) matches Some(e) ==> (r matches Err(e2) && e2 == e),
        decode_error_of(bytes@) is None ==> (r matches Ok(t) && decoded_track_matches(bytes@, t)),
{
    let container = match parse_container(bytes) {
        Ok(c) => c,
        Err(e) => {
            return Err(e);
        },
    };
    let Container { key_blob, meta_blob, cover, audio } = container;
    let ghost meta_view = meta_blob@;
    let decrypted_key = match decrypt_aes128(key_blob, AES_CORE_KEY) {
        Ok(d) => d,
        Err(e) => {
            return Err(e);
        },
    };
    let key_material = drop_front(decrypted_key, 17);
    let table = match build_key_box(key_material) {
        Ok(t) => t,
        Err(e) => {
            return Err(e);
        },
    };
    let clear_audio = decrypt_audio(&table, &audio);
    let metadata = if meta_blob.len() == 0 {
        None
    } else {
        match decode_track_metadata(meta_blob) {
            Ok(m) => Some(m),
            Err(e) => {
                return Err(e);
            },
        }
    };
    let cover_type = classify_cover(&cover);
    Ok(DecodedTrack { audio: clear_audio, metadata, cover, cover_type })
}

/// Decoding is deterministic: both the failure a container is doomed to and
/// the cleartext audio of a decodable one are functions of the input bytes
/// alone, so re-running the pipeline on the same bytes yields byte-identical
/// results.
pub proof fn lemma_decode_deterministic(b1: Seq<u8>, b2: Seq<u8>)
    requires
        b1 == b2,
    ensures
        decode_error_of(b1) == decode_error_of(b2),
        clear_audio_of(b1) == clear_audio_of(b2),
{
}

} // verus!
