//! The calls into the XChaCha20-Poly1305 cipher, the operating system's
//! random source and std's UTF-8 decoder that the engine rests on.

use chacha20poly1305::aead::{Aead, KeyInit, Payload};
use chacha20poly1305::{Key, XChaCha20Poly1305, XNonce};
use rand::rngs::OsRng;
use rand::RngCore;
use vstd::prelude::*;
use vstd::utf8::{decode_utf8, valid_utf8};

verus! {

/// Length in bytes of a key.
pub const KEY_LEN: usize = 32;

/// Length in bytes of a nonce.
pub const NONCE_LEN: usize = 24;

/// Length in bytes of the Poly1305 tag that follows the ciphertext.
pub const TAG_LEN: usize = 16;

/// What XChaCha20-Poly1305 seals `msg` into under `key`, `nonce` and the
/// associated data `aad`: the ciphertext followed by the tag.
pub uninterp spec fn xchacha_seal(key: Seq<u8>, nonce: Seq<u8>, msg: Seq<u8>, aad: Seq<u8>) -> Seq<u8>;

/// What XChaCha20-Poly1305 opens `ct` into under `key`, `nonce` and `aad`:
/// the plaintext, or `None` where the tag does not verify.
pub uninterp spec fn xchacha_open(key: Seq<u8>, nonce: Seq<u8>, ct: Seq<u8>, aad: Seq<u8>) -> Option<Seq<u8>>;

/// The longest message, in bytes, that the cipher's keystream covers: the
/// 32-bit block counter starts at block 1, after the block that keys Poly1305,
/// so `u32::MAX - 1` blocks of 64 bytes are left for the message.
pub const MAX_MESSAGE_LEN: u64 = 64 * 4294967294;

/// True when a message of `len` bytes fits in the cipher's keystream.
pub open spec fn keystream_fits(len: int) -> bool {
    len <= MAX_MESSAGE_LEN
}

/// Relies on `Aead::encrypt` of chacha20poly1305's `XChaCha20Poly1305`, built
/// from the key with `KeyInit::new`: on a message that fits in the keystream it
/// returns the ciphertext, as long as the message, followed by a 16-byte tag,
/// which `Aead::decrypt` opens back into the message under the same key, nonce
/// and associated data. A longer message is refused or makes the keystream
/// panic, so it is not admitted.
#[verifier::external_body]
pub(crate) fn aead_seal(key: &[u8; 32], nonce: &[u8; 24], msg: &[u8], aad: &[u8]) -> (r: Option<Vec<u8>>)
    requires
        msg@.len() + TAG_LEN <= isize::MAX,
        keystream_fits(msg@.len() as int),
    ensures
        r is Some,
        r matches Some(c) ==> c@ == xchacha_seal(key@, nonce@, msg@, aad@),
        r matches Some(c) ==> c@.len() == msg@.len() + TAG_LEN,
        r matches Some(c) ==> xchacha_open(key@, nonce@, c@, aad@) == Some(msg@),
{
    let cipher = XChaCha20Poly1305::new(Key::from_slice(key));
    cipher.encrypt(XNonce::from_slice(nonce), Payload { msg, aad }).ok()
}

/// Relies on `Aead::decrypt` of chacha20poly1305's `XChaCha20Poly1305`, built
/// from the key with `KeyInit::new`: it fails on a ciphertext shorter than the
/// 16-byte tag, and otherwise returns the plaintext, 16 bytes shorter than the
/// ciphertext, only where the tag verifies. A ciphertext whose message part does
/// not fit in the keystream can make the keystream panic, so it is not admitted.
#[verifier::external_body]
pub(crate) fn aead_open(key: &[u8; 32], nonce: &[u8], ct: &[u8], aad: &[u8]) -> (r: Option<Vec<u8>>)
    requires
        nonce@.len() == NONCE_LEN,
        keystream_fits(ct@.len() - TAG_LEN),
    ensures
        r is None <==> xchacha_open(key@, nonce@, ct@, aad@) is None,
        r matches Some(p) ==> xchacha_open(key@, nonce@, ct@, aad@) == Some(p@),
        r matches Some(p) ==> p@.len() + TAG_LEN == ct@.len(),
        ct@.len() < TAG_LEN ==> r is None,
{
    let cipher = XChaCha20Poly1305::new(Key::from_slice(key));
    cipher.decrypt(XNonce::from_slice(nonce), Payload { msg: ct, aad }).ok()
}

/// Relies on rand's `OsRng` through `RngCore::fill_bytes`: every byte comes from
/// the operating system's secure source, and the call panics rather than
/// return a weaker nonce where that source fails. Nothing is promised of the
/// bytes drawn.
#[verifier::external_body]
pub(crate) fn random_nonce() -> (r: [u8; 24]) {
    let mut nonce = [0u8; 24];
    OsRng.fill_bytes(&mut nonce);
    nonce
}

/// Relies on std's `String::from_utf8`: it succeeds exactly on valid UTF-8
/// and then holds the characters those bytes encode.
#[verifier::external_body]
pub(crate) fn utf8_to_string(bytes: Vec<u8>) -> (r: Option<String>)
    ensures
        r is Some <==> valid_utf8(bytes@),
        r matches Some(s) ==> s@ == decode_utf8(bytes@),
{
    String::from_utf8(bytes).ok()
}

} // verus!
