//! Opening the sealed client credentials: hex text in, AES-256-GCM, text out.

use vstd::prelude::*;
use vstd::utf8::{decode_utf8, valid_utf8};
use aes_gcm::aead::{Aead, KeyInit};

verus! {

/// The length of an AES-256 key in bytes.
pub const KEY_BYTES: usize = 32;

/// The length of the nonce in bytes.
pub const NONCE_BYTES: usize = 12;

/// Why a sealed value could not be opened.
#[derive(Clone, Copy, Debug, PartialEq, Eq, Structural)]
pub enum CredentialError {
    /// The key is not hex text.
    InvalidKey,
    /// The nonce is not hex text.
    InvalidNonce,
    /// The sealed value is not hex text.
    InvalidCiphertext,
    /// The key is not 32 bytes long.
    KeyLength,
    /// The nonce is not 12 bytes long.
    NonceLength,
    /// The sealed value was not made with this key and nonce, or was changed.
    DecryptionFailed,
    /// What was sealed is not text.
    InvalidUtf8,
}

/// The value of a hex digit, in either case.
pub open spec fn hex_value(c: char) -> Option<int> {
    if '0' <= c && c <= '9' {
        Some(c as u32 - '0' as u32)
    } else if 'a' <= c && c <= 'f' {
        Some(c as u32 - 'a' as u32 + 10)
    } else if 'A' <= c && c <= 'F' {
        Some(c as u32 - 'A' as u32 + 10)
    } else {
        None
    }
}

/// The bytes that hex text denotes: two digits for each byte, the high one
/// first. Text of odd length, or with anything but hex digits in it, denotes
/// nothing.
pub open spec fn hex_bytes(text: Seq<char>) -> Option<Seq<u8>> {
    if text.len() % 2 == 0 && forall|i: int| 0 <= i < text.len() ==> hex_value(#[trigger] text[i])
        is Some {
        Some(
            Seq::new(
                text.len() / 2,
                |i: int| (hex_value(text[2 * i])->0 * 16 + hex_value(text[2 * i + 1])->0) as u8,
            ),
        )
    } else {
        None
    }
}

/// What AES-256-GCM gives for a ciphertext with its tag at the end, under a
/// key and a nonce and without associated data: the plaintext, or nothing
/// if the tag does not fit.
pub uninterp spec fn aes256_gcm_open(key: Seq<u8>, nonce: Seq<u8>, ciphertext: Seq<u8>) -> Option<
    Seq<u8>,
>;

/// Decodes hex text with `hex::decode`, which takes digits of either case in
/// pairs and refuses text of odd length or with any other character.
#[verifier::external_body]
fn hex_decode(text: &str) -> (r: Option<Vec<u8>>)
    ensures
        match r {
            Some(bytes) => hex_bytes(text@) == Some(bytes@),
            None => hex_bytes(text@) is None,
        },
{
    match hex::decode(text) {
        Ok(bytes) => Some(bytes),
        Err(_) => None,
    }
}

/// Opens a ciphertext with `aes_gcm::Aes256Gcm` (`KeyInit::new`, then
/// `Aead::decrypt`). The key and the nonce must have their fixed lengths: made
/// from a slice of another length, either one panics. The result depends on
/// the three byte strings alone.
#[verifier::external_body]
fn aes256_gcm_decrypt(key: &[u8], nonce: &[u8], ciphertext: &[u8]) -> (r: Option<Vec<u8>>)
    requires
        key@.len() == KEY_BYTES,
        nonce@.len() == NONCE_BYTES,
    ensures
        match r {
            Some(plaintext) => aes256_gcm_open(key@, nonce@, ciphertext@) == Some(plaintext@),
            None => aes256_gcm_open(key@, nonce@, ciphertext@) is None,
        },
{
    let cipher = aes_gcm::Aes256Gcm::new(aes_gcm::Key::<aes_gcm::Aes256Gcm>::from_slice(key));
    match cipher.decrypt(aes_gcm::Nonce::from_slice(nonce), ciphertext) {
        Ok(plaintext) => Some(plaintext),
        Err(_) => None,
    }
}

/// Reads bytes as text with `String::from_utf8`, which gives the text that
/// the bytes encode, or nothing if they are not UTF-8.
#[verifier::external_body]
fn text_from_utf8(bytes: Vec<u8>) -> (r: Option<String>)
    ensures
        match r {
            Some(text) => valid_utf8(bytes@) && text@ == decode_utf8(bytes@),
            None => !valid_utf8(bytes@),
        },
{
    match String::from_utf8(bytes) {
        Ok(text) => Some(text),
        Err(_) => None,
    }
}

/// What opening gives once the three hex texts are decoded: the lengths of
/// key and nonce are checked, the ciphertext is opened, and the plaintext is
/// read as text.
pub open spec fn opened_bytes(key: Seq<u8>, nonce: Seq<u8>, ciphertext: Seq<u8>) -> Result<
    Seq<char>,
    CredentialError,
> {
    if key.len() != KEY_BYTES {
        Err(CredentialError::KeyLength)
    } else if nonce.len() != NONCE_BYTES {
        Err(CredentialError::NonceLength)
    } else {
        match aes256_gcm_open(key, nonce, ciphertext) {
            Some(plaintext) => if valid_utf8(plaintext) {
                Ok(decode_utf8(plaintext))
            } else {
                Err(CredentialError::InvalidUtf8)
            },
            None => Err(CredentialError::DecryptionFailed),
        }
    }
}

/// The text that a sealed value holds, for a key and a nonce, all three given
/// as hex text. The key is decoded first, then the nonce, then the sealed
/// value; the first that is not hex text decides the error.
pub open spec fn opened(ciphertext_hex: Seq<char>, key_hex: Seq<char>, nonce_hex: Seq<char>) -> Result<
    Seq<char>,
    CredentialError,
> {
    match hex_bytes(key_hex) {
        None => Err(CredentialError::InvalidKey),
        Some(key) => match hex_bytes(nonce_hex) {
            None => Err(CredentialError::InvalidNonce),
            Some(nonce) => match hex_bytes(ciphertext_hex) {
                None => Err(CredentialError::InvalidCiphertext),
                Some(ciphertext) => opened_bytes(key, nonce, ciphertext),
            },
        },
    }
}

/// The value of an opening.
pub open spec fn opened_view(r: Result<String, CredentialError>) -> Result<
    Seq<char>,
    CredentialError,
> {
    match r {
        Ok(text) => Ok(text@),
        Err(e) => Err(e),
    }
}

/// Opens a ciphertext with a key and a nonce, all three as bytes.
pub fn decrypt_bytes(key: &Vec<u8>, nonce: &Vec<u8>, ciphertext: &Vec<u8>) -> (r: Result<
    String,
    CredentialError,
>)
    ensures
        opened_view(r) == opened_bytes(key@, nonce@, ciphertext@),
{
    if key.len() != KEY_BYTES {
        return Err(CredentialError::KeyLength);
    }
    if nonce.len() != NONCE_BYTES {
        return Err(CredentialError::NonceLength);
    }
    match aes256_gcm_decrypt(key.as_slice(), nonce.as_slice(), ciphertext.as_slice()) {
        Some(plaintext) => match text_from_utf8(plaintext) {
            Some(text) => Ok(text),
            None => Err(CredentialError::InvalidUtf8),
        },
        None => Err(CredentialError::DecryptionFailed),
    }
}

/// Opens a sealed value: hex text that holds an AES-256-GCM ciphertext, for a
/// key and a nonce that are hex text too.
pub fn decrypt_string(ciphertext_hex: &str, key_hex: &str, nonce_hex: &str) -> (r: Result<
    String,
    CredentialError,
>)
    ensures
        opened_view(r) == opened(ciphertext_hex@, key_hex@, nonce_hex@),
{
    let key = match hex_decode(key_hex) {
        Some(bytes) => bytes,
        None => {
            return Err(CredentialError::InvalidKey);
        },
    };
    let nonce = match hex_decode(nonce_hex) {
        Some(bytes) => bytes,
        None => {
            return Err(CredentialError::InvalidNonce);
        },
    };
    let ciphertext = match hex_decode(ciphertext_hex) {
        Some(bytes) => bytes,
        None => {
            return Err(CredentialError::InvalidCiphertext);
        },
    };
    decrypt_bytes(&key, &nonce, &ciphertext)
}

} // verus!
