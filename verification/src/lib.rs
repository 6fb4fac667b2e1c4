pub mod block_cipher;
pub mod container;
pub mod cover;
pub mod errors;
pub mod filename;
pub mod key_schedule;
pub mod metadata;
pub mod pipeline;
pub mod stream_cipher;

pub use block_cipher::{decrypt_aes128, encrypt_aes128};
pub use container::{parse_container, Container};
pub use cover::{classify_cover, media_type_label, MediaType};
pub use errors::NcmError;
pub use filename::{sanitize_track_name, track_name_from_filename};
pub use key_schedule::build_key_box;
pub use metadata::{decode_track_metadata, TrackMetadata, AES_MODIFY_KEY};
pub use pipeline::{decode_ncm, DecodedTrack, AES_CORE_KEY};
pub use stream_cipher::{decrypt_audio, decrypt_chunk, AUDIO_CHUNK_SIZE};
