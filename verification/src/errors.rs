use vstd::prelude::*;

verus! {

/// Everything that can go wrong while decoding one NCM container.
///
/// A failure is always confined to the file being decoded: callers running a
/// batch report the error for that file and continue with the rest.
#[derive(Clone, Copy, Debug, PartialEq, Eq, Structural)]
pub enum NcmError {
    /// The input does not begin with the fixed 8-byte NCM signature.
    NotContainerFormat,
    /// Block decryption produced data whose trailing padding count is
    /// inconsistent with its length.
    MalformedCiphertext,
    /// The key section decrypted to nothing after the fixed prefix skip, so
    /// no key schedule can be built.
    EmptyKeyMaterial,
    /// The metadata section is not valid base64 after deobfuscation.
    InvalidMetadataEncoding,
    /// The decrypted metadata is not valid UTF-8 text.
    InvalidMetadataText,
    /// The metadata text is not a well-formed track document.
    MalformedMetadataDocument,
    /// The requested output location is neither a directory nor a writable
    /// file. Produced by callers that resolve output paths, not by the
    /// decoding pipeline itself.
    UnsupportedOutputTarget,
    /// An underlying read or write failed. Produced by callers that perform
    /// I/O, not by the decoding pipeline itself.
    IoFailure,
}

} // verus!
