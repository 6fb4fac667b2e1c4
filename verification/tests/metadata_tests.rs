use base64::Engine;
use ncm_flac::{decode_track_metadata, encrypt_aes128, NcmError, AES_MODIFY_KEY};

/// Builds a deobfuscated metadata section around the given document text:
/// a 6-byte inner header, block encryption under the modify key, base64, and
/// a 22-byte outer header. The text is padded with spaces to a 16-byte
/// multiple, which JSON parsing ignores.
fn metadata_blob(text: &str) -> Vec<u8> {
    let mut inner = b"music:".to_vec();
    inner.extend_from_slice(text.as_bytes());
    while inner.len() % 16 != 0 {
        inner.push(b' ');
    }
    let cipher = encrypt_aes128(inner, AES_MODIFY_KEY);
    let encoded = base64::engine::general_purpose::STANDARD.encode(&cipher);
    let mut blob = vec![0u8; 22];
    blob.extend_from_slice(encoded.as_bytes());
    blob
}

#[test]
fn metadata_fields_are_decoded() {
    let mut text = String::from("{\"format\":\"mp3\",\"musicName\":\"Song\",\"album\":\"Alb\",");
    text.push_str("\"artist\":[[\"Alice\",1],[\"Bob\",2]],\"bitrate\":320000,\"duration\":240}");
    let tm = decode_track_metadata(metadata_blob(&text)).unwrap();
    assert_eq!(tm.format, "mp3");
    assert_eq!(tm.title, "Song");
    assert_eq!(tm.album, "Alb");
    assert_eq!(tm.artists, vec!["Alice".to_string(), "Bob".to_string()]);
    assert_eq!(tm.bitrate, 320000);
    assert_eq!(tm.duration, 240);
    assert!(tm.is_mp3());
}

#[test]
fn metadata_missing_fields_take_defaults() {
    let tm = decode_track_metadata(metadata_blob("{\"format\":\"flac\"}")).unwrap();
    assert_eq!(tm.format, "flac");
    assert!(!tm.is_mp3());
    assert_eq!(tm.title, "?");
    assert_eq!(tm.album, "?");
    assert!(tm.artists.is_empty());
    assert_eq!(tm.bitrate, 0);
    assert_eq!(tm.duration, 0);
}

#[test]
fn metadata_artist_entries_without_a_name_are_skipped() {
    let text = "{\"format\":\"mp3\",\"artist\":[[\"Alice\",1],[42,0],[\"Bob\",2]]}";
    let tm = decode_track_metadata(metadata_blob(text)).unwrap();
    assert_eq!(tm.artists, vec!["Alice".to_string(), "Bob".to_string()]);
}

#[test]
fn metadata_missing_format_is_malformed_document() {
    let r = decode_track_metadata(metadata_blob("{\"musicName\":\"Song\"}"));
    assert!(matches!(r, Err(NcmError::MalformedMetadataDocument)));
}

#[test]
fn metadata_bad_base64_is_invalid_encoding() {
    let mut blob = vec![0u8; 22];
    blob.extend_from_slice(b"!!!not base64!!!");
    let r = decode_track_metadata(blob);
    assert!(matches!(r, Err(NcmError::InvalidMetadataEncoding)));
}

#[test]
fn metadata_bad_block_padding_is_malformed_ciphertext() {
    // Valid base64 of bytes that are not a whole padded block: the empty
    // decryption has no padding byte to read.
    let encoded = base64::engine::general_purpose::STANDARD.encode([1u8, 2, 3]);
    let mut blob = vec![0u8; 22];
    blob.extend_from_slice(encoded.as_bytes());
    let r = decode_track_metadata(blob);
    assert!(matches!(r, Err(NcmError::MalformedCiphertext)));
}

#[test]
fn metadata_invalid_utf8_is_invalid_text() {
    let mut inner = b"music:".to_vec();
    inner.extend_from_slice(&[0xff, 0xfe, 0xfd, 0xfc, 0xfb, 0xfa, 0xf9, 0xf8, 0xf7, 0xf6]);
    let cipher = encrypt_aes128(inner, AES_MODIFY_KEY);
    let encoded = base64::engine::general_purpose::STANDARD.encode(&cipher);
    let mut blob = vec![0u8; 22];
    blob.extend_from_slice(encoded.as_bytes());
    let r = decode_track_metadata(blob);
    assert!(matches!(r, Err(NcmError::InvalidMetadataText)));
}

#[test]
fn metadata_non_json_text_is_malformed_document() {
    let r = decode_track_metadata(metadata_blob("not a document"));
    assert!(matches!(r, Err(NcmError::MalformedMetadataDocument)));
}
