use aes_gcm::aead::{Aead, KeyInit};
use aes_gcm::{Aes256Gcm, Nonce};
use dj_uploader::config::{MixcloudCredentials, SoundcloudCredentials};
use dj_uploader::secrets::{decrypt_bytes, decrypt_string, CredentialError};

const KEY: [u8; 32] = [7u8; 32];
const NONCE: [u8; 12] = [9u8; 12];

fn seal(plaintext: &[u8]) -> String {
    let cipher = Aes256Gcm::new(&KEY.into());
    hex::encode(cipher.encrypt(Nonce::from_slice(&NONCE), plaintext).unwrap())
}

fn key_hex() -> String {
    hex::encode(KEY)
}

fn nonce_hex() -> String {
    hex::encode(NONCE)
}

#[test]
fn opens_what_was_sealed() {
    let sealed = seal("client-id-123".as_bytes());
    assert_ne!(sealed, "client-id-123");
    assert_eq!(decrypt_string(&sealed, &key_hex(), &nonce_hex()), Ok("client-id-123".to_string()));
    let sealed = seal("s\u{e9}cret \u{2713}".as_bytes());
    assert_eq!(decrypt_string(&sealed, &key_hex(), &nonce_hex()), Ok("s\u{e9}cret \u{2713}".to_string()));
}

#[test]
fn opens_published_examples() {
    let zeros_key = "00".repeat(32);
    let zeros_nonce = "00".repeat(12);
    assert_eq!(
        decrypt_string("530f8afbc74536b9a963b4f1c4cb738b", &zeros_key, &zeros_nonce),
        Ok(String::new())
    );
    assert_eq!(
        decrypt_string(
            "cea7403d4d606b6e074ec5d3baf39d18d0d1c8a799996bf0265b98b5d48ab919",
            &zeros_key,
            &zeros_nonce
        ),
        Ok("\0".repeat(16))
    );
    assert_eq!(
        decrypt_string(
            "CEA7403D4D606B6E074EC5D3BAF39D18D0D1C8A799996BF0265B98B5D48AB919",
            &zeros_key,
            &zeros_nonce
        ),
        Ok("\0".repeat(16))
    );
}

#[test]
fn hex_text_is_checked_in_order() {
    let sealed = seal(b"x");
    assert_eq!(decrypt_string("zz", "zz", "zz"), Err(CredentialError::InvalidKey));
    assert_eq!(decrypt_string("zz", &key_hex(), "zz"), Err(CredentialError::InvalidNonce));
    assert_eq!(decrypt_string("zz", &key_hex(), &nonce_hex()), Err(CredentialError::InvalidCiphertext));
    assert_eq!(decrypt_string(&sealed, "abc", &nonce_hex()), Err(CredentialError::InvalidKey));
    assert_eq!(decrypt_string(&sealed, &key_hex(), "0g"), Err(CredentialError::InvalidNonce));
    assert_eq!(
        decrypt_string("\u{e9}\u{e9}", &key_hex(), &nonce_hex()),
        Err(CredentialError::InvalidCiphertext)
    );
    assert_eq!(decrypt_string(" 00", &key_hex(), &nonce_hex()), Err(CredentialError::InvalidCiphertext));
}

#[test]
fn lengths_are_checked_before_opening() {
    let sealed = seal(b"x");
    assert_eq!(decrypt_string(&sealed, "0707", &nonce_hex()), Err(CredentialError::KeyLength));
    assert_eq!(decrypt_string(&sealed, "", &nonce_hex()), Err(CredentialError::KeyLength));
    assert_eq!(decrypt_string(&sealed, &key_hex(), "0909"), Err(CredentialError::NonceLength));
    assert_eq!(decrypt_string(&sealed, &"07".repeat(33), ""), Err(CredentialError::KeyLength));
    assert_eq!(
        decrypt_bytes(&vec![0u8; 32], &vec![0u8; 13], &Vec::new()),
        Err(CredentialError::NonceLength)
    );
}

#[test]
fn wrong_key_or_changed_text_does_not_open() {
    let sealed = seal(b"secret");
    assert_eq!(
        decrypt_string(&sealed, &"08".repeat(32), &nonce_hex()),
        Err(CredentialError::DecryptionFailed)
    );
    assert_eq!(
        decrypt_string(&sealed, &key_hex(), &"0a".repeat(12)),
        Err(CredentialError::DecryptionFailed)
    );
    let mut changed = sealed.clone().into_bytes();
    changed[0] = if changed[0] == b'0' { b'1' } else { b'0' };
    assert_eq!(
        decrypt_string(&String::from_utf8(changed).unwrap(), &key_hex(), &nonce_hex()),
        Err(CredentialError::DecryptionFailed)
    );
    assert_eq!(decrypt_string("", &key_hex(), &nonce_hex()), Err(CredentialError::DecryptionFailed));
    assert_eq!(decrypt_string("00ff", &key_hex(), &nonce_hex()), Err(CredentialError::DecryptionFailed));
}

#[test]
fn sealed_bytes_must_be_text() {
    let sealed = seal(&[0xff, 0xfe, 0x00]);
    assert_eq!(decrypt_string(&sealed, &key_hex(), &nonce_hex()), Err(CredentialError::InvalidUtf8));
}

#[test]
fn decrypt_bytes_takes_the_decoded_values() {
    let sealed = hex::decode(seal(b"plain")).unwrap();
    assert_eq!(decrypt_bytes(&KEY.to_vec(), &NONCE.to_vec(), &sealed), Ok("plain".to_string()));
}

#[test]
fn credentials_are_opened_from_their_sealed_form() {
    let id = seal(b"the-id");
    let secret = seal(b"the-secret");
    let mixcloud = MixcloudCredentials::decrypt(&id, &secret, &key_hex(), &nonce_hex()).unwrap();
    assert_eq!(mixcloud, MixcloudCredentials::new("the-id".to_string(), "the-secret".to_string()));
    let soundcloud = SoundcloudCredentials::decrypt(&id, &secret, &key_hex(), &nonce_hex()).unwrap();
    assert_eq!(soundcloud.client_id, "the-id");
    assert_eq!(soundcloud.client_secret, "the-secret");
    assert_eq!(
        MixcloudCredentials::decrypt("xy", &secret, &key_hex(), &nonce_hex()),
        Err(CredentialError::InvalidCiphertext)
    );
    assert_eq!(
        SoundcloudCredentials::decrypt(&id, "00", &key_hex(), &nonce_hex()),
        Err(CredentialError::DecryptionFailed)
    );
}
