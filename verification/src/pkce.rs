//! Proof-of-key-exchange material and the anti-forgery state value.

use vstd::prelude::*;
use vstd::string::StringExecFns;
use vstd::string::StringSliceAdditionalSpecFns;
use vstd::utf8::encode_utf8;
use base64::Engine;
use rand::Rng;
use sha2::Digest;

verus! {

/// The number of random bytes in a code verifier.
pub const VERIFIER_BYTES: usize = 32;

/// The number of characters in a state value.
pub const STATE_LENGTH: usize = 32;

/// The SHA-256 digest of a byte string.
pub uninterp spec fn sha256_digest(data: Seq<u8>) -> Seq<u8>;

/// The unpadded base64 encoding of a byte string in the URL-safe alphabet.
pub uninterp spec fn base64url_nopad(data: Seq<u8>) -> Seq<char>;

/// Whether `c` is an ASCII letter or digit.
pub open spec fn is_ascii_alphanumeric(c: char) -> bool {
    ('a' <= c && c <= 'z') || ('A' <= c && c <= 'Z') || ('0' <= c && c <= '9')
}

/// The challenge that belongs to a verifier: the encoded digest of the
/// verifier's bytes.
pub open spec fn challenge_of(verifier: Seq<char>) -> Seq<char> {
    base64url_nopad(sha256_digest(encode_utf8(verifier)))
}

/// Whether `verifier` is the encoding of a fresh 32-byte value.
pub open spec fn is_verifier(verifier: Seq<char>) -> bool {
    exists|bytes: Seq<u8>| bytes.len() == VERIFIER_BYTES && verifier == base64url_nopad(bytes)
}

/// Whether `state` is a state value: 32 ASCII letters and digits.
pub open spec fn is_state_value(state: Seq<char>) -> bool {
    &&& state.len() == STATE_LENGTH
    &&& forall|i: int| 0 <= i < state.len() ==> is_ascii_alphanumeric(#[trigger] state[i])
}

/// Hashes `data` with `sha2::Sha256` (`Digest::new`, `update`, `finalize`).
/// The result is the digest of exactly these bytes, and a SHA-256 digest is 32
/// bytes long.
#[verifier::external_body]
fn sha256(data: &[u8]) -> (digest: Vec<u8>)
    ensures
        digest@ == sha256_digest(data@),
        digest@.len() == 32,
{
    let mut hasher = sha2::Sha256::new();
    hasher.update(data);
    hasher.finalize().to_vec()
}

/// Encodes `data` with `base64::engine::general_purpose::URL_SAFE_NO_PAD`
/// (`Engine::encode`). The encoder only fails when the encoded length does not
/// fit in `usize`, which no slice in memory reaches.
#[verifier::external_body]
fn base64url_encode(data: &[u8]) -> (text: String)
    ensures
        text@ == base64url_nopad(data@),
{
    base64::engine::general_purpose::URL_SAFE_NO_PAD.encode(data)
}

/// Draws `count` bytes from `rand::thread_rng` with `Rng::gen`. Only the
/// number of bytes is known of the result.
#[verifier::external_body]
fn random_bytes(count: usize) -> (bytes: Vec<u8>)
    ensures
        bytes@.len() == count,
{
    let mut rng = rand::thread_rng();
    (0..count).map(|_| rng.gen()).collect()
}

/// Draws `count` characters from `rand::thread_rng` with the distribution
/// `rand::distributions::Alphanumeric`, which yields ASCII letters and digits
/// only.
#[verifier::external_body]
fn random_alphanumeric(count: usize) -> (text: String)
    ensures
        text@.len() == count,
        forall|i: int| 0 <= i < text@.len() ==> is_ascii_alphanumeric(#[trigger] text@[i]),
{
    rand::thread_rng().sample_iter(&rand::distributions::Alphanumeric).take(count).map(
        char::from,
    ).collect()
}

/// A fresh code verifier: 32 random bytes in unpadded URL-safe base64.
pub fn generate_code_verifier() -> (verifier: String)
    ensures
        is_verifier(verifier@),
{
    let bytes = random_bytes(VERIFIER_BYTES);
    base64url_encode(bytes.as_slice())
}

/// The code challenge for `verifier`: the SHA-256 digest of the verifier's
/// bytes in unpadded URL-safe base64.
pub fn generate_code_challenge(verifier: &str) -> (challenge: String)
    ensures
        challenge@ == challenge_of(verifier@),
{
    let digest = sha256(verifier.as_bytes());
    base64url_encode(digest.as_slice())
}

/// A fresh state value for one authorization attempt.
pub fn generate_state() -> (state: String)
    ensures
        is_state_value(state@),
{
    random_alphanumeric(STATE_LENGTH)
}

/// A verifier and the challenge derived from it. The verifier lives for one
/// authorization attempt only.
pub struct PkceMaterial {
    pub verifier: String,
    pub challenge: String,
}

impl PkceMaterial {
    /// Whether the challenge is the one that belongs to the verifier.
    pub open spec fn is_paired(&self) -> bool {
        self.challenge@ == challenge_of(self.verifier@)
    }

    /// Fresh material: a new verifier and its challenge.
    pub fn generate() -> (m: Self)
        ensures
            is_verifier(m.verifier@),
            m.is_paired(),
    {
        let verifier = generate_code_verifier();
        let challenge = generate_code_challenge(verifier.as_str());
        PkceMaterial { verifier, challenge }
    }

    /// The material for a given verifier.
    pub fn from_verifier(verifier: String) -> (m: Self)
        ensures
            m.verifier@ == verifier@,
            m.is_paired(),
    {
        let challenge = generate_code_challenge(verifier.as_str());
        PkceMaterial { verifier, challenge }
    }
}

/// The challenge depends on the verifier alone: two computations from the
/// same verifier give the same challenge, and that challenge is the encoded
/// digest of the verifier's bytes.
pub proof fn lemma_challenge_is_deterministic(first: Seq<char>, second: Seq<char>)
    requires
        first == second,
    ensures
        challenge_of(first) == challenge_of(second),
        challenge_of(first) == base64url_nopad(sha256_digest(encode_utf8(first))),
{
}

} // verus!
