//! Elliptic Curve Integrated Encryption Scheme over secp256k1.
//!
//! `encrypt` seals a message for the holder of a private scalar, of whom
//! only the public point is known; `decrypt` opens it with the scalar.
//!
//! The scheme, byte for byte:
//! - keys: a private scalar is 32 bytes, big-endian; a public point is
//!   65 bytes, `0x04 || x || y`;
//! - key agreement: the sender's ephemeral scalar times the receiver's
//!   point, which equals the receiver's scalar times the ephemeral point;
//! - key derivation: SHA-256 of the uncompressed encoding of that product;
//! - cipher: AES-256-GCM, 12-byte nonce, 16-byte tag, no associated data;
//! - envelope: `ephemeral point (65) || nonce (12) || ciphertext || tag (16)`.
//!
//! A public point is taken in this one form only: a key of another length,
//! under another tag or off the curve is refused. A message may be as long
//! as the cipher takes under one nonce, `2^36 - 32` bytes; a longer one is
//! refused.
//!
//! Curve arithmetic, hash, cipher and random source come from the crates
//! `secp256k1`, `sha2`, `aes-gcm` and `getrandom`. What is assumed of them is
//! written at the functions that call them, in `curve`, `symmetric` and
//! `random`; everything else is proved.

use vstd::prelude::*;

pub mod bytes;
pub mod curve;
pub mod envelope;
pub mod error;
pub mod keys;
pub mod random;
pub mod symmetric;
pub mod utils;

use crate::bytes::{all_zero, wipe};
use crate::curve::{
    generator_multiple, lemma_zero_scalar, on_curve, valid_point, valid_scalar, x_of, y_of,
    POINT_SIZE, TAG_UNCOMPRESSED,
};
use crate::envelope::{
    is_key_pair, join_envelope, lemma_cipher_decides, message_fits, message_len_fits,
    opened_envelope, sealed_envelope, seals, split_envelope, ENVELOPE_OVERHEAD,
};
use crate::error::{outcome, EciesError};
use crate::keys::{PrivateScalar, PublicPoint};
use crate::symmetric::NONCE_SIZE;
use crate::utils::{
    aes_decrypt, aes_encrypt_with_nonce, decapsulate, encapsulate, generate_keypair,
    generate_nonce,
};

verus! {

/// What sealing `msg` for `receiver_pub` comes to before anything is
/// drawn: the error for a key that is no point or a message that is too
/// long, the key first; `None` where neither stands in the way.
pub open spec fn refusal(receiver_pub: Seq<u8>, msg: Seq<u8>) -> Option<EciesError> {
    if !valid_point(receiver_pub) {
        Some(EciesError::InvalidPublicKey)
    } else if !message_fits(msg.len()) {
        Some(EciesError::MessageTooLong)
    } else {
        None
    }
}

/// The envelope for a receiver whose key has been read and a message that
/// fits, made with an ephemeral key pair and a nonce that are already
/// there.
fn seal_for(
    receiver: &PublicPoint,
    ephemeral: &PrivateScalar,
    ephemeral_public: &PublicPoint,
    nonce: &[u8; 12],
    msg: &[u8],
) -> (envelope: Result<Vec<u8>, EciesError>)
    requires
        valid_point(receiver@),
        message_fits(msg@.len()),
        valid_scalar(ephemeral@),
        ephemeral_public@ == generator_multiple(ephemeral@),
    ensures
        envelope matches Ok(e) && e@ == sealed_envelope(receiver@, ephemeral@, nonce@, msg@)
            && seals(receiver@, msg@, e@) && e@.len() == msg@.len() + ENVELOPE_OVERHEAD
            && e@.subrange(0, POINT_SIZE as int) == ephemeral_public@ && e@.subrange(
            POINT_SIZE as int,
            POINT_SIZE + NONCE_SIZE,
        ) == nonce@,
{
    let ephemeral_bytes = ephemeral_public.serialize_uncompressed();
    let mut key = encapsulate(ephemeral, receiver);
    let sealed = aes_encrypt_with_nonce(&key, nonce, msg);
    wipe(&mut key);
    let blob = match sealed {
        Ok(blob) => blob,
        Err(error) => {
            return Err(error);
        },
    };
    let envelope = join_envelope(&ephemeral_bytes, blob.as_slice());
    proof {
        assert(envelope@.subrange(0, POINT_SIZE as int) =~= ephemeral_public@);
        assert(envelope@.subrange(POINT_SIZE as int, POINT_SIZE + NONCE_SIZE) =~= nonce@);
        assert(envelope@ == sealed_envelope(receiver@, ephemeral@, nonce@, msg@));
        assert forall|private: Seq<u8>| #[trigger]
            is_key_pair(private, receiver@) implies opened_envelope(private, envelope@) == Ok::<
            Seq<u8>,
            EciesError,
        >(msg@) by {
            lemma_cipher_decides(private, ephemeral_public@, blob@);
        }
    }
    Ok(envelope)
}

/// Seals `msg` for the holder of the public key `receiver_pub`, with an
/// ephemeral scalar and a nonce that the caller has drawn. Nothing here is
/// left to chance: the same arguments give the same envelope. The envelope
/// starts with the public point of the ephemeral scalar; the nonce follows.
pub fn encrypt_with(
    receiver_pub: &[u8],
    ephemeral: &PrivateScalar,
    nonce: &[u8; 12],
    msg: &[u8],
) -> (envelope: Result<Vec<u8>, EciesError>)
    ensures
        outcome(envelope) == match refusal(receiver_pub@, msg@) {
            Some(error) => Err::<Seq<u8>, EciesError>(error),
            None => Ok::<Seq<u8>, EciesError>(
                sealed_envelope(receiver_pub@, ephemeral@, nonce@, msg@),
            ),
        },
        envelope matches Ok(e) ==> {
            &&& seals(receiver_pub@, msg@, e@)
            &&& e@.len() == msg@.len() + ENVELOPE_OVERHEAD
            &&& valid_point(e@.subrange(0, POINT_SIZE as int))
            &&& e@.subrange(0, POINT_SIZE as int) == generator_multiple(ephemeral@)
            &&& e@.subrange(POINT_SIZE as int, POINT_SIZE + NONCE_SIZE) == nonce@
        },
{
    let receiver = match PublicPoint::from_bytes(receiver_pub) {
        Ok(point) => point,
        Err(error) => {
            return Err(error);
        },
    };
    if !message_len_fits(msg.len()) {
        return Err(EciesError::MessageTooLong);
    }
    let ephemeral_public = ephemeral.public_point();
    seal_for(&receiver, ephemeral, &ephemeral_public, nonce, msg)
}

/// Seals `msg` for the holder of the public key `receiver_pub`, which is
/// given in its 65-byte encoding. A fresh ephemeral key pair and a fresh
/// nonce are drawn for every call; the envelope that comes back starts
/// with the ephemeral public point.
pub fn encrypt(receiver_pub: &[u8], msg: &[u8]) -> (envelope: Result<Vec<u8>, EciesError>)
    ensures
        match envelope {
            Ok(e) => {
                &&& refusal(receiver_pub@, msg@) is None
                &&& seals(receiver_pub@, msg@, e@)
                &&& e@.len() == msg@.len() + ENVELOPE_OVERHEAD
                &&& valid_point(e@.subrange(0, POINT_SIZE as int))
            },
            Err(error) => match refusal(receiver_pub@, msg@) {
                Some(refused) => error == refused,
                None => error == EciesError::RandomSourceFailure,
            },
        },
        !valid_point(receiver_pub@) ==> envelope == Err::<Vec<u8>, EciesError>(
            EciesError::InvalidPublicKey,
        ),
        receiver_pub@.len() != POINT_SIZE ==> envelope == Err::<Vec<u8>, EciesError>(
            EciesError::InvalidPublicKey,
        ),
        receiver_pub@.len() == POINT_SIZE && receiver_pub@[0] != TAG_UNCOMPRESSED ==> envelope
            == Err::<Vec<u8>, EciesError>(EciesError::InvalidPublicKey),
        receiver_pub@.len() == POINT_SIZE && !on_curve(x_of(receiver_pub@), y_of(receiver_pub@))
            ==> envelope == Err::<Vec<u8>, EciesError>(EciesError::InvalidPublicKey),
{
    let receiver = match PublicPoint::from_bytes(receiver_pub) {
        Ok(point) => point,
        Err(error) => {
            return Err(error);
        },
    };
    if !message_len_fits(msg.len()) {
        return Err(EciesError::MessageTooLong);
    }
    let (ephemeral, ephemeral_public) = match generate_keypair() {
        Ok(pair) => pair,
        Err(error) => {
            return Err(error);
        },
    };
    let nonce = match generate_nonce() {
        Ok(nonce) => nonce,
        Err(error) => {
            return Err(error);
        },
    };
    seal_for(&receiver, &ephemeral, &ephemeral_public, &nonce, msg)
}

/// Opens the envelope `msg` with the private scalar `receiver_sec`, which
/// is given as 32 bytes, big-endian. The scalar is looked at first, then
/// the length of the envelope, then the ephemeral point at its start, then
/// the cipher output behind it; the first that fails gives the error.
pub fn decrypt(receiver_sec: &[u8], msg: &[u8]) -> (plaintext: Result<Vec<u8>, EciesError>)
    ensures
        outcome(plaintext) == opened_envelope(receiver_sec@, msg@),
        !valid_scalar(receiver_sec@) ==> plaintext == Err::<Vec<u8>, EciesError>(
            EciesError::InvalidPrivateKey,
        ),
        all_zero(receiver_sec@) ==> plaintext == Err::<Vec<u8>, EciesError>(
            EciesError::InvalidPrivateKey,
        ),
        valid_scalar(receiver_sec@) && msg@.len() < POINT_SIZE ==> plaintext == Err::<
            Vec<u8>,
            EciesError,
        >(EciesError::MalformedEnvelope),
        valid_scalar(receiver_sec@) && msg@.len() >= POINT_SIZE && msg@[0] != TAG_UNCOMPRESSED
            ==> plaintext == Err::<Vec<u8>, EciesError>(EciesError::InvalidPublicKey),
        plaintext matches Ok(p) ==> p@.len() + ENVELOPE_OVERHEAD == msg@.len(),
{
    proof {
        if all_zero(receiver_sec@) {
            lemma_zero_scalar(receiver_sec@);
        }
    }
    let receiver = match PrivateScalar::from_bytes(receiver_sec) {
        Ok(scalar) => scalar,
        Err(error) => {
            return Err(error);
        },
    };
    let (point, blob) = match split_envelope(msg) {
        Ok(parts) => parts,
        Err(error) => {
            return Err(error);
        },
    };
    let ephemeral_public = match PublicPoint::from_bytes(point) {
        Ok(point) => point,
        Err(error) => {
            return Err(error);
        },
    };
    let mut key = decapsulate(&ephemeral_public, &receiver);
    let plaintext = aes_decrypt(&key, blob);
    wipe(&mut key);
    plaintext
}

} // verus!
