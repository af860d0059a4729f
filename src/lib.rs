//! Sealing and opening of short text messages with XChaCha20-Poly1305.
//!
//! A sealed blob is `nonce (24 bytes) ‖ ciphertext ‖ tag (16 bytes)`; the
//! associated data is authenticated but not carried in the blob.

pub mod engine;
pub mod error;
pub mod primitive;


pub use engine::CryptoEngine;
pub use error::{DecryptionError, EncryptionError};
