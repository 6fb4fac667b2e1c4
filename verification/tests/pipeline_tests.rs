use base64::Engine;
use ncm_flac::{decode_ncm, encrypt_aes128, NcmError, AES_CORE_KEY, AES_MODIFY_KEY};

const MAGIC: [u8; 8] = [0x43, 0x54, 0x45, 0x4e, 0x46, 0x44, 0x41, 0x4d];
const KEY_MATERIAL: &[u8; 15] = b"NCMKEYMATERIAL!";

fn reference_key_box(key: &[u8]) -> Vec<u8> {
    let mut table: Vec<u8> = (0..=255u8).collect();
    let mut last_byte: u8 = 0;
    let mut offset: usize = 0;
    for count in 0..256 {
        let c = ((table[count] as u16 + last_byte as u16 + key[offset] as u16) & 0xff) as u8;
        offset += 1;
        if offset >= key.len() {
            offset = 0;
        }
        table.swap(c as usize, count);
        last_byte = c;
    }
    table
}

fn reference_keystream_xor(table: &[u8], data: &[u8]) -> Vec<u8> {
    let mut out = Vec::new();
    for chunk in data.chunks(0x8000) {
        for (i, b) in chunk.iter().enumerate() {
            let j = (i + 1) & 0xff;
            let m = table[(table[j] as usize + table[(table[j] as usize + j) & 0xff] as usize)
                & 0xff];
            out.push(b ^ m);
        }
    }
    out
}

fn section(data: &[u8]) -> Vec<u8> {
    let mut out = (data.len() as u32).to_le_bytes().to_vec();
    out.extend_from_slice(data);
    out
}

/// A stored key section whose decryption yields the fixed 17-byte prefix
/// followed by the given key material.
fn key_section(material: &[u8]) -> Vec<u8> {
    let mut plain = vec![0u8; 17];
    plain.extend_from_slice(material);
    assert_eq!(plain.len() % 16, 0);
    let cipher = encrypt_aes128(plain, AES_CORE_KEY);
    let stored: Vec<u8> = cipher.iter().map(|b| b ^ 0x64).collect();
    section(&stored)
}

/// A minimal container: magic, reserved skip, the given key section, an
/// empty metadata section, the reserved region, no cover, and the audio.
fn minimal_container(key_sec: &[u8], audio: &[u8]) -> Vec<u8> {
    let mut bytes = MAGIC.to_vec();
    bytes.extend_from_slice(&[0, 0]);
    bytes.extend_from_slice(key_sec);
    bytes.extend_from_slice(&section(&[]));
    bytes.extend_from_slice(&[0; 9]);
    bytes.extend_from_slice(&section(&[]));
    bytes.extend_from_slice(audio);
    bytes
}

#[test]
fn end_to_end_minimal_container() {
    let audio_raw: Vec<u8> = (0..100u32).map(|i| (i * 13 % 256) as u8).collect();
    let bytes = minimal_container(&key_section(KEY_MATERIAL), &audio_raw);
    let track = decode_ncm(&bytes).unwrap();

    assert!(track.metadata.is_none());
    assert!(track.cover.is_empty());
    assert!(track.cover_type.is_none());
    let table = reference_key_box(KEY_MATERIAL);
    assert_eq!(track.audio, reference_keystream_xor(&table, &audio_raw));
}

#[test]
fn end_to_end_with_metadata_and_cover() {
    let text = "{\"format\":\"flac\",\"musicName\":\"T\",\"artist\":[[\"A\",7]]}";
    let mut inner = b"music:".to_vec();
    inner.extend_from_slice(text.as_bytes());
    while inner.len() % 16 != 0 {
        inner.push(b' ');
    }
    let meta_cipher = encrypt_aes128(inner, AES_MODIFY_KEY);
    let encoded = base64::engine::general_purpose::STANDARD.encode(&meta_cipher);
    let mut meta_clear = vec![0u8; 22];
    meta_clear.extend_from_slice(encoded.as_bytes());
    let meta_stored: Vec<u8> = meta_clear.iter().map(|b| b ^ 0x63).collect();

    let cover: Vec<u8> = vec![0x89, 0x50, 0x4e, 0x47, 0x0d, 0x0a, 0x1a, 0x0a, 1, 2];
    let audio_raw: Vec<u8> = vec![10, 20, 30, 40];

    let mut bytes = MAGIC.to_vec();
    bytes.extend_from_slice(&[0, 0]);
    bytes.extend_from_slice(&key_section(KEY_MATERIAL));
    bytes.extend_from_slice(&section(&meta_stored));
    bytes.extend_from_slice(&[0; 9]);
    bytes.extend_from_slice(&section(&cover));
    bytes.extend_from_slice(&audio_raw);

    let track = decode_ncm(&bytes).unwrap();
    let tm = track.metadata.unwrap();
    assert_eq!(tm.format, "flac");
    assert_eq!(tm.title, "T");
    assert_eq!(tm.album, "?");
    assert_eq!(tm.artists, vec!["A".to_string()]);
    assert_eq!(track.cover, cover);
    assert_eq!(track.cover_type, Some(ncm_flac::MediaType::Png));
    let table = reference_key_box(KEY_MATERIAL);
    assert_eq!(track.audio, reference_keystream_xor(&table, &audio_raw));
}

#[test]
fn decoding_same_bytes_twice_is_byte_identical() {
    let audio_raw: Vec<u8> = (0..500u32).map(|i| (i % 256) as u8).collect();
    let bytes = minimal_container(&key_section(KEY_MATERIAL), &audio_raw);
    let first = decode_ncm(&bytes).unwrap();
    let second = decode_ncm(&bytes).unwrap();
    assert_eq!(first.audio, second.audio);
    assert_eq!(first.cover, second.cover);
}

#[test]
fn bad_magic_is_not_container_format() {
    let audio_raw = vec![1, 2, 3];
    let mut bytes = minimal_container(&key_section(KEY_MATERIAL), &audio_raw);
    bytes[3] = 0x00;
    assert!(matches!(decode_ncm(&bytes), Err(NcmError::NotContainerFormat)));
}

#[test]
fn empty_input_is_not_container_format() {
    assert!(matches!(decode_ncm(&Vec::new()), Err(NcmError::NotContainerFormat)));
}

#[test]
fn truncated_key_section_is_malformed_ciphertext() {
    // The key section reads empty, so its block decryption has no padding
    // byte to read.
    let mut bytes = MAGIC.to_vec();
    bytes.extend_from_slice(&[0, 0]);
    bytes.extend_from_slice(&100u32.to_le_bytes());
    assert!(matches!(decode_ncm(&bytes), Err(NcmError::MalformedCiphertext)));
}

#[test]
fn key_shorter_than_prefix_is_empty_key_material() {
    // The key section decrypts to nothing, so after the 17-byte prefix skip
    // no key material remains.
    let cipher = encrypt_aes128(Vec::new(), AES_CORE_KEY);
    let stored: Vec<u8> = cipher.iter().map(|b| b ^ 0x64).collect();
    let bytes = minimal_container(&section(&stored), &[1, 2, 3]);
    assert!(matches!(decode_ncm(&bytes), Err(NcmError::EmptyKeyMaterial)));
}

#[test]
fn bad_metadata_section_fails_that_file() {
    let mut bytes = MAGIC.to_vec();
    bytes.extend_from_slice(&[0, 0]);
    bytes.extend_from_slice(&key_section(KEY_MATERIAL));
    let meta_clear = b"0123456789012345678901!!!not base64!!!";
    let meta_stored: Vec<u8> = meta_clear.iter().map(|b| b ^ 0x63).collect();
    bytes.extend_from_slice(&section(&meta_stored));
    bytes.extend_from_slice(&[0; 9]);
    bytes.extend_from_slice(&section(&[]));
    assert!(matches!(decode_ncm(&bytes), Err(NcmError::InvalidMetadataEncoding)));
}
