//! The engine that seals and opens messages under one fixed key.

use crate::error::{DecryptionError, EncryptionError};
use crate::primitive::{
    aead_open, aead_seal, keystream_fits, random_nonce, utf8_to_string, xchacha_open, xchacha_seal,
    MAX_MESSAGE_LEN, NONCE_LEN, TAG_LEN,
};
use vstd::prelude::*;
use vstd::slice::{slice_subrange, slice_to_vec};
use vstd::string::StringSliceAdditionalSpecFns;
use vstd::utf8::{
    decode_utf8, encode_utf8, encode_utf8_decode_utf8, encode_utf8_valid_utf8, valid_utf8,
};

verus! {

/// True when a message of `len` bytes can be sealed: the cipher's output
/// buffer must fit in memory and the message must fit in the keystream.
pub open spec fn accepted_len(len: int) -> bool {
    len + TAG_LEN <= isize::MAX && keystream_fits(len)
}

/// The blob that sealing the text `m` under `key`, `nonce` and `aad` gives:
/// the nonce followed by the sealed UTF-8 bytes of `m`.
pub open spec fn sealed_blob(key: Seq<u8>, nonce: Seq<u8>, m: Seq<char>, aad: Seq<u8>) -> Seq<u8> {
    nonce + xchacha_seal(key, nonce, encode_utf8(m), aad)
}

/// True when `blob` is a sealing of the text `m` under `key` and `aad`: a
/// 24-byte nonce followed by what the cipher sealed the UTF-8 bytes of `m`
/// into under that nonce, which the cipher opens back into those bytes; the
/// bytes of `m` fit in the keystream.
pub open spec fn is_sealing_of(key: Seq<u8>, m: Seq<char>, aad: Seq<u8>, blob: Seq<u8>) -> bool {
    let nonce = blob.take(NONCE_LEN as int);
    &&& blob.len() == NONCE_LEN + encode_utf8(m).len() + TAG_LEN
    &&& keystream_fits(encode_utf8(m).len() as int)
    &&& blob == sealed_blob(key, nonce, m, aad)
    &&& xchacha_open(key, nonce, blob.skip(NONCE_LEN as int), aad) == Some(encode_utf8(m))
}

/// The text, or the error, that the cipher's answer `opened` stands for.
pub open spec fn text_of_opened(opened: Option<Seq<u8>>) -> Result<Seq<char>, DecryptionError> {
    match opened {
        None => Err(DecryptionError::AuthenticationFailed),
        Some(p) => if valid_utf8(p) {
            Ok(decode_utf8(p))
        } else {
            Err(DecryptionError::InvalidEncoding)
        },
    }
}

/// What opening `blob` under `key` and `aad` gives: its length is checked
/// first, then the cipher opens what follows the nonce, then the plaintext
/// must be UTF-8. A message part longer than the keystream covers cannot be
/// authentic, and is refused as such without calling the cipher.
pub open spec fn opened_text(key: Seq<u8>, blob: Seq<u8>, aad: Seq<u8>) -> Result<
    Seq<char>,
    DecryptionError,
> {
    if blob.len() < NONCE_LEN {
        Err(DecryptionError::TooShort)
    } else if blob.len() == NONCE_LEN {
        Err(DecryptionError::MissingCiphertext)
    } else if !keystream_fits(blob.len() - NONCE_LEN - TAG_LEN) {
        Err(DecryptionError::AuthenticationFailed)
    } else {
        text_of_opened(
            xchacha_open(key, blob.take(NONCE_LEN as int), blob.skip(NONCE_LEN as int), aad),
        )
    }
}

/// A decryption result with the text seen as its characters.
pub open spec fn text_view(r: Result<String, DecryptionError>) -> Result<Seq<char>, DecryptionError> {
    match r {
        Ok(s) => Ok(s@),
        Err(e) => Err(e),
    }
}

/// The cipher's answer with the plaintext seen as its bytes.
pub open spec fn bytes_view(o: Option<Vec<u8>>) -> Option<Seq<u8>> {
    match o {
        Some(v) => Some(v@),
        None => None,
    }
}

/// Turns the cipher's answer into the decrypted text: no answer is an
/// authentication failure, and an authentic plaintext must be UTF-8.
pub fn plaintext_from_opened(opened: Option<Vec<u8>>) -> (r: Result<String, DecryptionError>)
    ensures
        text_view(r) == text_of_opened(bytes_view(opened)),
{
    match opened {
        None => Err(DecryptionError::AuthenticationFailed),
        Some(p) => match utf8_to_string(p) {
            Some(s) => Ok(s),
            None => Err(DecryptionError::InvalidEncoding),
        },
    }
}

/// Seals and opens text messages under a key fixed at construction.
pub struct CryptoEngine {
    key: [u8; 32],
}

impl View for CryptoEngine {
    type V = Seq<u8>;

    /// The key.
    closed spec fn view(&self) -> Seq<u8> {
        self.key@
    }
}

impl CryptoEngine {
    /// An engine that seals and opens under `key`.
    pub fn new(key: &[u8; 32]) -> (r: Self)
        ensures
            r@ == key@,
    {
        CryptoEngine { key: *key }
    }

    /// Seals `message` with the associated data `aad` under a fresh random
    /// nonce and returns `nonce ‖ ciphertext ‖ tag`. An empty message is
    /// refused before any nonce is drawn.
    pub fn encrypt(&self, message: &str, aad: &[u8]) -> (r: Result<Vec<u8>, EncryptionError>)
        ensures
            message@.len() == 0 ==> r == Err::<Vec<u8>, _>(EncryptionError::EmptyMessage),
            message@.len() > 0 ==> (r is Ok <==> accepted_len(message.spec_bytes().len() as int)),
            message@.len() > 0 && r is Err ==> r == Err::<Vec<u8>, _>(
                EncryptionError::EncryptionFailed,
            ),
            r matches Ok(b) ==> is_sealing_of(self@, message@, aad@, b@),
            r matches Ok(b) ==> opened_text(self@, b@, aad@) == Ok::<_, DecryptionError>(message@),
    {
        if message.is_empty() {
            return Err(EncryptionError::EmptyMessage);
        }
        let nonce = random_nonce();
        self.encrypt_with_nonce(message, aad, &nonce)
    }

    /// Seals `message` with the associated data `aad` under the given nonce
    /// and returns `nonce ‖ ciphertext ‖ tag`. A nonce must never be used
    /// twice under one key: `encrypt` draws a fresh one for each call.
    pub fn encrypt_with_nonce(&self, message: &str, aad: &[u8], nonce: &[u8; 24]) -> (r: Result<
        Vec<u8>,
        EncryptionError,
    >)
        ensures
            message@.len() == 0 ==> r == Err::<Vec<u8>, _>(EncryptionError::EmptyMessage),
            message@.len() > 0 ==> (r is Ok <==> accepted_len(message.spec_bytes().len() as int)),
            message@.len() > 0 && r is Err ==> r == Err::<Vec<u8>, _>(
                EncryptionError::EncryptionFailed,
            ),
            r matches Ok(b) ==> b@ == sealed_blob(self@, nonce@, message@, aad@),
            r matches Ok(b) ==> is_sealing_of(self@, message@, aad@, b@),
            r matches Ok(b) ==> opened_text(self@, b@, aad@) == Ok::<_, DecryptionError>(message@),
    {
        if message.is_empty() {
            return Err(EncryptionError::EmptyMessage);
        }
        let bytes = message.as_bytes();
        if bytes.len() > isize::MAX as usize - TAG_LEN || bytes.len() as u64 > MAX_MESSAGE_LEN {
            return Err(EncryptionError::EncryptionFailed);
        }
        let mut ct = aead_seal(&self.key, nonce, bytes, aad).unwrap();
        let mut out = slice_to_vec(nonce.as_slice());
        out.append(&mut ct);
        proof {
            assert(out@.take(NONCE_LEN as int) =~= nonce@);
            assert(out@.skip(NONCE_LEN as int) =~= xchacha_seal(
                self@,
                nonce@,
                encode_utf8(message@),
                aad@,
            ));
            lemma_round_trip(self@, message@, aad@, out@);
        }
        Ok(out)
    }

    /// Opens `data`, laid out as `nonce ‖ ciphertext ‖ tag`, with the
    /// associated data `aad`. The length is checked before the cipher is
    /// called; every failure of the cipher, and a ciphertext too long for its
    /// keystream, is `AuthenticationFailed`.
    pub fn decrypt(&self, data: &[u8], aad: &[u8]) -> (r: Result<String, DecryptionError>)
        ensures
            text_view(r) == opened_text(self@, data@, aad@),
            data@.len() < NONCE_LEN ==> r == Err::<String, _>(DecryptionError::TooShort),
            data@.len() == NONCE_LEN ==> r == Err::<String, _>(
                DecryptionError::MissingCiphertext,
            ),
    {
        if data.len() < NONCE_LEN {
            return Err(DecryptionError::TooShort);
        }
        let nonce = slice_subrange(data, 0, NONCE_LEN);
        let ct = slice_subrange(data, NONCE_LEN, data.len());
        if ct.len() == 0 {
            return Err(DecryptionError::MissingCiphertext);
        }
        if ct.len() as u64 > MAX_MESSAGE_LEN + TAG_LEN as u64 {
            return Err(DecryptionError::AuthenticationFailed);
        }
        assert(nonce@ =~= data@.take(NONCE_LEN as int));
        assert(ct@ =~= data@.skip(NONCE_LEN as int));
        let opened = aead_open(&self.key, nonce, ct, aad);
        plaintext_from_opened(opened)
    }
}

/// Round trip: a blob that seals a non-empty text `m` under `key` and `aad`
/// opens, under the same key and associated data, back into `m`.
pub proof fn lemma_round_trip(key: Seq<u8>, m: Seq<char>, aad: Seq<u8>, blob: Seq<u8>)
    requires
        m.len() > 0,
        is_sealing_of(key, m, aad, blob),
    ensures
        opened_text(key, blob, aad) == Ok::<_, DecryptionError>(m),
{
    encode_utf8_valid_utf8(m);
    encode_utf8_decode_utf8(m);
}

/// A blob whose message part fits in the keystream and whose authentic
/// plaintext is not valid UTF-8 opens into `InvalidEncoding`, never into
/// `AuthenticationFailed`.
pub proof fn lemma_invalid_encoding(key: Seq<u8>, blob: Seq<u8>, aad: Seq<u8>, plain: Seq<u8>)
    requires
        blob.len() > NONCE_LEN,
        keystream_fits(blob.len() - NONCE_LEN - TAG_LEN),
        xchacha_open(key, blob.take(NONCE_LEN as int), blob.skip(NONCE_LEN as int), aad) == Some(
            plain,
        ),
        !valid_utf8(plain),
    ensures
        opened_text(key, blob, aad) == Err::<Seq<char>, _>(DecryptionError::InvalidEncoding),
{
}

} // verus!
