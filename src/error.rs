use vstd::prelude::*;

verus! {

/// Why a message could not be sealed.
#[derive(Debug, Clone, Copy, PartialEq, Eq, Structural)]
pub enum EncryptionError {
    /// The message holds no characters; nothing was drawn or sealed.
    EmptyMessage,
    /// The cipher refused to seal the message.
    EncryptionFailed,
}

/// Why a blob could not be opened.
#[derive(Debug, Clone, Copy, PartialEq, Eq, Structural)]
pub enum DecryptionError {
    /// The blob is shorter than a nonce.
    TooShort,
    /// The blob holds a nonce and nothing after it.
    MissingCiphertext,
    /// The cipher did not accept the blob under this key and associated data.
    AuthenticationFailed,
    /// The authentic plaintext is not valid UTF-8.
    InvalidEncoding,
}

} // verus!
