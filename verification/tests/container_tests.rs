use ncm_flac::{parse_container, NcmError};

const MAGIC: [u8; 8] = [0x43, 0x54, 0x45, 0x4e, 0x46, 0x44, 0x41, 0x4d];

fn section(data: &[u8]) -> Vec<u8> {
    let mut out = (data.len() as u32).to_le_bytes().to_vec();
    out.extend_from_slice(data);
    out
}

#[test]
fn container_sections_are_split_and_deobfuscated() {
    let key_stored: Vec<u8> = vec![0x10, 0x20, 0x30];
    let meta_stored: Vec<u8> = vec![0x40, 0x50];
    let cover: Vec<u8> = vec![9, 8, 7, 6];
    let audio: Vec<u8> = vec![1, 2, 3, 4, 5];

    let mut bytes = MAGIC.to_vec();
    bytes.extend_from_slice(&[0xaa, 0xbb]);
    bytes.extend_from_slice(&section(&key_stored));
    bytes.extend_from_slice(&section(&meta_stored));
    bytes.extend_from_slice(&[0; 9]);
    bytes.extend_from_slice(&section(&cover));
    bytes.extend_from_slice(&audio);

    let c = parse_container(&bytes).unwrap();
    let key_expect: Vec<u8> = key_stored.iter().map(|b| b ^ 0x64).collect();
    let meta_expect: Vec<u8> = meta_stored.iter().map(|b| b ^ 0x63).collect();
    assert_eq!(c.key_blob, key_expect);
    assert_eq!(c.meta_blob, meta_expect);
    assert_eq!(c.cover, cover);
    assert_eq!(c.audio, audio);
}

#[test]
fn container_bad_magic_is_refused() {
    let mut bytes = MAGIC.to_vec();
    bytes[0] ^= 1;
    bytes.extend_from_slice(&[0; 40]);
    assert!(matches!(parse_container(&bytes), Err(NcmError::NotContainerFormat)));
}

#[test]
fn container_short_input_is_refused() {
    let bytes: Vec<u8> = MAGIC[..5].to_vec();
    assert!(matches!(parse_container(&bytes), Err(NcmError::NotContainerFormat)));
}

#[test]
fn container_truncated_section_reads_empty() {
    // The key section promises 100 bytes but the file ends: the section is
    // empty and everything after it reads empty too.
    let mut bytes = MAGIC.to_vec();
    bytes.extend_from_slice(&[0, 0]);
    bytes.extend_from_slice(&100u32.to_le_bytes());
    let c = parse_container(&bytes).unwrap();
    assert!(c.key_blob.is_empty());
    assert!(c.meta_blob.is_empty());
    assert!(c.cover.is_empty());
    assert!(c.audio.is_empty());
}

#[test]
fn container_magic_alone_parses_empty() {
    let bytes = MAGIC.to_vec();
    let c = parse_container(&bytes).unwrap();
    assert!(c.key_blob.is_empty());
    assert!(c.meta_blob.is_empty());
    assert!(c.cover.is_empty());
    assert!(c.audio.is_empty());
}
