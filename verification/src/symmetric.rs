//! The symmetric primitives, taken from the crates `sha2` and `aes-gcm`:
//! SHA-256 and AES-256-GCM with a 96-bit nonce, a 128-bit tag and no
//! associated data.
//!
//! Neither algorithm is written out here. Each result is named, and the
//! functions below say what is taken on trust about the names.

use aes_gcm::aead::Aead;
use aes_gcm::{Aes256Gcm, KeyInit};
use sha2::{Digest, Sha256};
use vstd::prelude::*;

verus! {

/// Length of the nonce that starts a cipher output.
pub const NONCE_SIZE: usize = 12;

/// Length of the authentication tag that ends a cipher output.
pub const TAG_SIZE: usize = 16;

/// The longest plaintext that the cipher takes under one nonce,
/// `2^36 - 32` bytes.
pub const MAX_PLAINTEXT_LEN: u64 = 0xF_FFFF_FFE0;

/// The SHA-256 digest of `data`, 32 bytes.
pub uninterp spec fn sha256(data: Seq<u8>) -> Seq<u8>;

/// Ciphertext followed by tag: what AES-256-GCM makes of `plaintext` under
/// `key` and `nonce`.
pub uninterp spec fn gcm_seal(key: Seq<u8>, nonce: Seq<u8>, plaintext: Seq<u8>) -> Seq<u8>;

/// The plaintext that AES-256-GCM recovers from `sealed` (ciphertext
/// followed by tag) under `key` and `nonce`, or `None` where the tag does
/// not verify.
pub uninterp spec fn gcm_open(key: Seq<u8>, nonce: Seq<u8>, sealed: Seq<u8>) -> Option<Seq<u8>>;

/// Calls `sha2::Sha256::digest`. Taken on trust: the digest is a function of
/// the data alone, named `sha256`.
#[verifier::external_body]
pub(crate) fn digest(data: &[u8]) -> (hash: [u8; 32])
    ensures
        hash@ == sha256(data@),
{
    Sha256::digest(data).into()
}

/// Calls `encrypt` of `aes_gcm::Aes256Gcm`, with no associated data. Taken
/// on trust: on a plaintext within the cipher's limit it succeeds; the
/// result is a function of key, nonce and plaintext alone, named `gcm_seal`;
/// it is 16 bytes longer than the plaintext; and `decrypt` under the same
/// key and nonce gives the plaintext back, as the crate's documentation
/// shows in its first example.
#[verifier::external_body]
pub(crate) fn seal(key: &[u8; 32], nonce: &[u8; 12], plaintext: &[u8]) -> (sealed: Vec<u8>)
    requires
        plaintext@.len() <= MAX_PLAINTEXT_LEN,
        plaintext@.len() + TAG_SIZE <= usize::MAX,
    ensures
        sealed@ == gcm_seal(key@, nonce@, plaintext@),
        sealed@.len() == plaintext@.len() + TAG_SIZE,
        gcm_open(key@, nonce@, sealed@) == Some(plaintext@),
{
    let cipher = Aes256Gcm::new(key.into());
    cipher.encrypt(nonce.into(), plaintext).expect("plaintext within the limit")
}

/// Calls `decrypt` of `aes_gcm::Aes256Gcm`, with no associated data. Taken
/// on trust: whether it succeeds and what it returns is a function of key,
/// nonce and input alone, named `gcm_open`; an input shorter than a tag is
/// refused; a plaintext that comes back is 16 bytes shorter than the input.
#[verifier::external_body]
pub(crate) fn open(key: &[u8; 32], nonce: &[u8; 12], sealed: &[u8]) -> (plaintext: Option<Vec<u8>>)
    ensures
        match plaintext {
            Some(p) => gcm_open(key@, nonce@, sealed@) == Some(p@) && p@.len() + TAG_SIZE
                == sealed@.len(),
            None => gcm_open(key@, nonce@, sealed@) is None,
        },
        sealed@.len() < TAG_SIZE ==> plaintext is None,
{
    let cipher = Aes256Gcm::new(key.into());
    cipher.decrypt(nonce.into(), sealed).ok()
}

} // verus!
