//! The parts that an envelope is made of: a fresh key pair, the key that
//! both sides derive, and the cipher output.

use crate::bytes::{to_array, wipe};
use crate::curve::{
    generator_multiple, multiply_point, scalar_multiple, valid_point, valid_scalar,
    TAG_UNCOMPRESSED,
};
use crate::error::{outcome, EciesError};
use crate::keys::{PrivateScalar, PublicPoint};
use crate::random::random_bytes;
use crate::symmetric::{
    digest, gcm_open, gcm_seal, open, seal, sha256, MAX_PLAINTEXT_LEN, NONCE_SIZE, TAG_SIZE,
};
use vstd::prelude::*;
use vstd::slice::slice_subrange;

verus! {

/// How many draws `generate_keypair` makes before it gives the random
/// source up. A draw of 32 random bytes misses the range of a scalar with
/// a probability below `2^-127`.
pub const MAX_DRAWS: u32 = 64;

/// The symmetric key that `scalar` and `point` give: SHA-256 of the
/// uncompressed encoding, `0x04 || x || y`, of the point multiplied by the
/// scalar.
pub open spec fn shared_key(scalar: Seq<u8>, point: Seq<u8>) -> Seq<u8> {
    sha256(seq![TAG_UNCOMPRESSED] + scalar_multiple(scalar, point))
}

/// The cipher output for `plaintext` under `key` and `nonce`: the nonce,
/// then the ciphertext, then the tag.
pub open spec fn cipher_output(key: Seq<u8>, nonce: Seq<u8>, plaintext: Seq<u8>) -> Seq<u8> {
    nonce + gcm_seal(key, nonce, plaintext)
}

/// A plaintext of `len` bytes can be sealed: the cipher takes it under one
/// nonce, and the cipher output is no longer than a length can say.
pub open spec fn plaintext_fits(len: nat) -> bool {
    &&& len <= MAX_PLAINTEXT_LEN
    &&& len + NONCE_SIZE + TAG_SIZE <= usize::MAX
}

/// What comes of reading `blob` as a cipher output under `key`.
pub open spec fn opened_output(key: Seq<u8>, blob: Seq<u8>) -> Result<Seq<u8>, EciesError> {
    if blob.len() < NONCE_SIZE {
        Err(EciesError::MalformedInput)
    } else {
        match gcm_open(
            key,
            blob.subrange(0, NONCE_SIZE as int),
            blob.subrange(NONCE_SIZE as int, blob.len() as int),
        ) {
            Some(plaintext) => Ok(plaintext),
            None => Err(EciesError::AuthenticationFailure),
        }
    }
}

/// The key pair that a draw of 32 random bytes gives, if the draw is a
/// scalar.
pub fn keypair_from_draw(draw: &[u8; 32]) -> (pair: Option<(PrivateScalar, PublicPoint)>)
    ensures
        pair is Some <==> valid_scalar(draw@),
        pair matches Some((private, public)) ==> private@ == draw@ && public@
            == generator_multiple(draw@) && valid_point(public@),
{
    match PrivateScalar::from_bytes(draw.as_slice()) {
        Ok(private) => {
            let public = private.public_point();
            Some((private, public))
        },
        Err(_) => None,
    }
}

/// A fresh key pair: a private scalar drawn from the random source of the
/// system, and its public point. A draw that misses the range of a scalar
/// is thrown away and made again, up to `MAX_DRAWS` times; a source that
/// misses that often counts as failed.
pub fn generate_keypair() -> (pair: Result<(PrivateScalar, PublicPoint), EciesError>)
    ensures
        match pair {
            Ok((private, public)) => valid_scalar(private@) && public@ == generator_multiple(
                private@,
            ) && valid_point(public@),
            Err(error) => error == EciesError::RandomSourceFailure,
        },
{
    let mut draws: u32 = 0;
    while draws < MAX_DRAWS
        invariant
            draws <= MAX_DRAWS,
        decreases MAX_DRAWS - draws,
    {
        match random_bytes::<32>() {
            None => {
                return Err(EciesError::RandomSourceFailure);
            },
            Some(draw) => {
                let mut draw = draw;
                let pair = keypair_from_draw(&draw);
                wipe(&mut draw);
                match pair {
                    Some((private, public)) => {
                        return Ok((private, public));
                    },
                    None => {},
                }
            },
        }
        draws += 1;
    }
    Err(EciesError::RandomSourceFailure)
}

/// The uncompressed encoding of the point with the coordinates `xy`: the
/// tag `0x04` in front of `x || y`.
pub fn encode_coordinates(xy: &[u8; 64]) -> (encoding: [u8; 65])
    ensures
        encoding@ == seq![TAG_UNCOMPRESSED] + xy@,
{
    let mut encoding = [0u8; 65];
    encoding[0] = TAG_UNCOMPRESSED;
    let mut i: usize = 0;
    while i < 64
        invariant
            i <= 64,
            encoding@.len() == 65,
            encoding@[0] == TAG_UNCOMPRESSED,
            forall|j: int| 0 <= j < i ==> encoding@[j + 1] == xy@[j],
        decreases 64 - i,
    {
        encoding[i + 1] = xy[i];
        i += 1;
    }
    assert(encoding@ =~= seq![TAG_UNCOMPRESSED] + xy@);
    encoding
}

/// The key for `scalar` and `point`: multiply, encode, hash. The product is
/// cleared once the key is there.
fn derive_key(scalar: &PrivateScalar, point: &PublicPoint) -> (key: [u8; 32])
    ensures
        key@ == shared_key(scalar@, point@),
        forall|other: Seq<u8>|
            valid_scalar(other) && #[trigger] generator_multiple(other) == point@ ==> key@
                == shared_key(other, generator_multiple(scalar@)),
{
    let mut scalar_bytes = scalar.to_bytes();
    let point_bytes = point.serialize_uncompressed();
    let mut xy = multiply_point(&scalar_bytes, &point_bytes);
    let mut encoding = encode_coordinates(&xy);
    let key = digest(encoding.as_slice());
    wipe(&mut scalar_bytes);
    wipe(&mut xy);
    wipe(&mut encoding);
    key
}

/// The symmetric key on the sender's side, from the sender's private scalar
/// and the receiver's public point. The receiver, who holds the scalar of
/// that point, derives the same key from the sender's public point.
pub fn encapsulate(sender_private: &PrivateScalar, receiver_public: &PublicPoint) -> (key: [u8; 32])
    ensures
        key@ == shared_key(sender_private@, receiver_public@),
        forall|receiver_private: Seq<u8>|
            valid_scalar(receiver_private) && #[trigger] generator_multiple(receiver_private)
                == receiver_public@ ==> key@ == shared_key(
                receiver_private,
                generator_multiple(sender_private@),
            ),
{
    derive_key(sender_private, receiver_public)
}

/// The symmetric key on the receiver's side, from the sender's public point
/// and the receiver's private scalar. The sender, who holds the scalar of
/// that point, derives the same key from the receiver's public point.
pub fn decapsulate(sender_public: &PublicPoint, receiver_private: &PrivateScalar) -> (key: [
    u8;
    32
])
    ensures
        key@ == shared_key(receiver_private@, sender_public@),
        forall|sender_private: Seq<u8>|
            valid_scalar(sender_private) && #[trigger] generator_multiple(sender_private)
                == sender_public@ ==> key@ == shared_key(
                sender_private,
                generator_multiple(receiver_private@),
            ),
{
    derive_key(receiver_private, sender_public)
}

/// A cipher output from its two parts: the nonce in front of ciphertext and
/// tag.
pub fn join_output(nonce: &[u8; 12], sealed: &[u8]) -> (blob: Vec<u8>)
    ensures
        blob@ == nonce@ + sealed@,
{
    let mut blob: Vec<u8> = Vec::new();
    blob.extend_from_slice(nonce.as_slice());
    blob.extend_from_slice(sealed);
    assert(blob@ =~= nonce@ + sealed@);
    blob
}

/// The two parts of a cipher output: the nonce, and ciphertext and tag
/// behind it. There is no nonce in fewer than 12 bytes.
pub fn split_output(blob: &[u8]) -> (parts: Result<([u8; 12], &[u8]), EciesError>)
    ensures
        match parts {
            Ok((nonce, sealed)) => blob@.len() >= NONCE_SIZE && nonce@ == blob@.subrange(
                0,
                NONCE_SIZE as int,
            ) && sealed@ == blob@.subrange(NONCE_SIZE as int, blob@.len() as int),
            Err(error) => blob@.len() < NONCE_SIZE && error == EciesError::MalformedInput,
        },
{
    if blob.len() < NONCE_SIZE {
        return Err(EciesError::MalformedInput);
    }
    let nonce: [u8; 12] = to_array(slice_subrange(blob, 0, NONCE_SIZE));
    let sealed = slice_subrange(blob, NONCE_SIZE, blob.len());
    Ok((nonce, sealed))
}

/// Whether a plaintext of `len` bytes can be sealed.
pub fn plaintext_len_fits(len: usize) -> (fits: bool)
    ensures
        fits == plaintext_fits(len as nat),
{
    len as u64 <= MAX_PLAINTEXT_LEN && len <= usize::MAX - (NONCE_SIZE + TAG_SIZE)
}

/// The cipher output for `plaintext` under `key` and a nonce that the
/// caller has drawn.
pub fn aes_encrypt_with_nonce(key: &[u8; 32], nonce: &[u8; 12], plaintext: &[u8]) -> (blob: Result<
    Vec<u8>,
    EciesError,
>)
    ensures
        outcome(blob) == if plaintext_fits(plaintext@.len()) {
            Ok::<Seq<u8>, EciesError>(cipher_output(key@, nonce@, plaintext@))
        } else {
            Err::<Seq<u8>, EciesError>(EciesError::MessageTooLong)
        },
        blob matches Ok(b) ==> b@.len() == NONCE_SIZE + plaintext@.len() + TAG_SIZE
            && opened_output(key@, b@) == Ok::<Seq<u8>, EciesError>(plaintext@),
{
    if !plaintext_len_fits(plaintext.len()) {
        return Err(EciesError::MessageTooLong);
    }
    let sealed = seal(key, nonce, plaintext);
    let blob = join_output(nonce, sealed.as_slice());
    proof {
        assert(blob@.subrange(0, NONCE_SIZE as int) =~= nonce@);
        assert(blob@.subrange(NONCE_SIZE as int, blob@.len() as int) =~= sealed@);
    }
    Ok(blob)
}

/// A fresh nonce from the random source of the system.
pub fn generate_nonce() -> (nonce: Result<[u8; 12], EciesError>)
    ensures
        nonce matches Err(error) ==> error == EciesError::RandomSourceFailure,
{
    match random_bytes::<12>() {
        Some(nonce) => Ok(nonce),
        None => Err(EciesError::RandomSourceFailure),
    }
}

/// The cipher output for `plaintext` under `key` and a nonce drawn from the
/// random source of the system.
pub fn aes_encrypt(key: &[u8; 32], plaintext: &[u8]) -> (blob: Result<Vec<u8>, EciesError>)
    ensures
        match blob {
            Ok(b) => {
                &&& plaintext_fits(plaintext@.len())
                &&& exists|nonce: Seq<u8>|
                    nonce.len() == NONCE_SIZE && b@ == #[trigger] cipher_output(
                        key@,
                        nonce,
                        plaintext@,
                    )
                &&& b@.len() == NONCE_SIZE + plaintext@.len() + TAG_SIZE
                &&& opened_output(key@, b@) == Ok::<Seq<u8>, EciesError>(plaintext@)
            },
            Err(error) => if plaintext_fits(plaintext@.len()) {
                error == EciesError::RandomSourceFailure
            } else {
                error == EciesError::MessageTooLong
            },
        },
{
    if !plaintext_len_fits(plaintext.len()) {
        return Err(EciesError::MessageTooLong);
    }
    match generate_nonce() {
        Ok(nonce) => {
            let blob = aes_encrypt_with_nonce(key, &nonce, plaintext);
            assert(nonce@.len() == NONCE_SIZE);
            blob
        },
        Err(error) => Err(error),
    }
}

/// The plaintext in the cipher output `blob`, if `blob` holds a nonce and
/// the tag verifies under `key`.
pub fn aes_decrypt(key: &[u8; 32], blob: &[u8]) -> (plaintext: Result<Vec<u8>, EciesError>)
    ensures
        outcome(plaintext) == opened_output(key@, blob@),
        blob@.len() < NONCE_SIZE ==> plaintext == Err::<Vec<u8>, EciesError>(
            EciesError::MalformedInput,
        ),
        NONCE_SIZE <= blob@.len() < NONCE_SIZE + TAG_SIZE ==> plaintext == Err::<
            Vec<u8>,
            EciesError,
        >(EciesError::AuthenticationFailure),
        plaintext matches Ok(p) ==> p@.len() + NONCE_SIZE + TAG_SIZE == blob@.len(),
{
    let (nonce, sealed) = match split_output(blob) {
        Ok(parts) => parts,
        Err(error) => {
            return Err(error);
        },
    };
    match open(key, &nonce, sealed) {
        Some(plaintext) => Ok(plaintext),
        None => Err(EciesError::AuthenticationFailure),
    }
}

} // verus!
