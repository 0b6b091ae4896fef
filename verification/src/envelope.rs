//! The envelope: the wire form of an encrypted message, and what holds of
//! sealing and opening it.
//!
//! An envelope is the sender's ephemeral public point, 65 bytes, followed
//! by the cipher output: nonce, ciphertext, tag.

use crate::curve::{generator_multiple, valid_point, valid_scalar, POINT_SIZE};
use crate::error::EciesError;
use crate::symmetric::{MAX_PLAINTEXT_LEN, NONCE_SIZE};
use crate::utils::{cipher_output, opened_output, shared_key};
use vstd::prelude::*;
use vstd::slice::slice_subrange;

verus! {

/// What an envelope is longer than its message: point, nonce and tag.
pub const ENVELOPE_OVERHEAD: usize = 93;

/// A message of `len` bytes can be sealed: the cipher takes it under one
/// nonce, and the envelope is no longer than a length can say.
pub open spec fn message_fits(len: nat) -> bool {
    &&& len <= MAX_PLAINTEXT_LEN
    &&& len + ENVELOPE_OVERHEAD <= usize::MAX
}

/// The envelope for `message` to the holder of `receiver_public`, made with
/// the ephemeral scalar `ephemeral` and the nonce `nonce`.
pub open spec fn sealed_envelope(
    receiver_public: Seq<u8>,
    ephemeral: Seq<u8>,
    nonce: Seq<u8>,
    message: Seq<u8>,
) -> Seq<u8> {
    generator_multiple(ephemeral) + cipher_output(
        shared_key(ephemeral, receiver_public),
        nonce,
        message,
    )
}

/// What comes of opening `envelope` with the scalar `receiver_private`.
/// The scalar is looked at first, then the length, then the ephemeral
/// point, then the cipher output.
pub open spec fn opened_envelope(receiver_private: Seq<u8>, envelope: Seq<u8>) -> Result<
    Seq<u8>,
    EciesError,
> {
    let ephemeral_public = envelope.subrange(0, POINT_SIZE as int);
    if !valid_scalar(receiver_private) {
        Err(EciesError::InvalidPrivateKey)
    } else if envelope.len() < POINT_SIZE {
        Err(EciesError::MalformedEnvelope)
    } else if !valid_point(ephemeral_public) {
        Err(EciesError::InvalidPublicKey)
    } else {
        opened_output(
            shared_key(receiver_private, ephemeral_public),
            envelope.subrange(POINT_SIZE as int, envelope.len() as int),
        )
    }
}

/// `private` is the scalar of the point `public`.
pub open spec fn is_key_pair(private: Seq<u8>, public: Seq<u8>) -> bool {
    &&& valid_scalar(private)
    &&& valid_point(public)
    &&& generator_multiple(private) == public
}

/// Whoever holds the scalar of `receiver_public` opens `envelope` to
/// `message`.
pub open spec fn opens_for_owner(
    receiver_public: Seq<u8>,
    envelope: Seq<u8>,
    message: Seq<u8>,
) -> bool {
    forall|private: Seq<u8>| #[trigger]
        is_key_pair(private, receiver_public) ==> opened_envelope(private, envelope) == Ok::<
            Seq<u8>,
            EciesError,
        >(message)
}

/// `envelope` is one of the envelopes that sealing `message` for
/// `receiver_public` gives: it was made with some ephemeral scalar and some
/// nonce, and the owner of `receiver_public` opens it to `message`.
pub open spec fn seals(receiver_public: Seq<u8>, message: Seq<u8>, envelope: Seq<u8>) -> bool {
    &&& valid_point(receiver_public)
    &&& message_fits(message.len())
    &&& exists|ephemeral: Seq<u8>, nonce: Seq<u8>|
        valid_scalar(ephemeral) && nonce.len() == NONCE_SIZE && envelope
            == #[trigger] sealed_envelope(receiver_public, ephemeral, nonce, message)
    &&& opens_for_owner(receiver_public, envelope, message)
}

/// An envelope from its two parts: the ephemeral point in front of the
/// cipher output.
pub fn join_envelope(ephemeral_public: &[u8; 65], blob: &[u8]) -> (envelope: Vec<u8>)
    ensures
        envelope@ == ephemeral_public@ + blob@,
{
    let mut envelope: Vec<u8> = Vec::new();
    envelope.extend_from_slice(ephemeral_public.as_slice());
    envelope.extend_from_slice(blob);
    assert(envelope@ =~= ephemeral_public@ + blob@);
    envelope
}

/// Whether a message of `len` bytes can be sealed.
pub fn message_len_fits(len: usize) -> (fits: bool)
    ensures
        fits == message_fits(len as nat),
{
    len as u64 <= MAX_PLAINTEXT_LEN && len <= usize::MAX - ENVELOPE_OVERHEAD
}

/// The two parts of an envelope: the 65 bytes of the ephemeral point, and
/// the cipher output behind them. There is no point in fewer than 65 bytes.
pub fn split_envelope(envelope: &[u8]) -> (parts: Result<(&[u8], &[u8]), EciesError>)
    ensures
        match parts {
            Ok((point, blob)) => envelope@.len() >= POINT_SIZE && point@ == envelope@.subrange(
                0,
                POINT_SIZE as int,
            ) && blob@ == envelope@.subrange(POINT_SIZE as int, envelope@.len() as int),
            Err(error) => envelope@.len() < POINT_SIZE && error == EciesError::MalformedEnvelope,
        },
{
    if envelope.len() < POINT_SIZE {
        return Err(EciesError::MalformedEnvelope);
    }
    let point = slice_subrange(envelope, 0, POINT_SIZE);
    let blob = slice_subrange(envelope, POINT_SIZE, envelope.len());
    Ok((point, blob))
}

/// Behind a scalar in range and an ephemeral point, the cipher decides:
/// opening the envelope comes to what opening its cipher output comes to,
/// under the key that scalar and point give. Whatever is changed in the
/// cipher output of an envelope, it is the cipher that has to notice.
pub proof fn lemma_cipher_decides(
    receiver_private: Seq<u8>,
    ephemeral_public: Seq<u8>,
    blob: Seq<u8>,
)
    requires
        valid_scalar(receiver_private),
        valid_point(ephemeral_public),
    ensures
        opened_envelope(receiver_private, ephemeral_public + blob) == opened_output(
            shared_key(receiver_private, ephemeral_public),
            blob,
        ),
{
    let envelope = ephemeral_public + blob;
    assert(envelope.subrange(0, POINT_SIZE as int) =~= ephemeral_public);
    assert(envelope.subrange(POINT_SIZE as int, envelope.len() as int) =~= blob);
}

/// Round trip. An envelope that seals a message for a public key is opened,
/// with the private scalar of that key, to the message.
pub proof fn lemma_round_trip(
    private: Seq<u8>,
    public: Seq<u8>,
    message: Seq<u8>,
    envelope: Seq<u8>,
)
    requires
        is_key_pair(private, public),
        seals(public, message, envelope),
    ensures
        opened_envelope(private, envelope) == Ok::<Seq<u8>, EciesError>(message),
{
}

/// Two envelopes that seal one message for one public key open to the same
/// plaintext, whatever ephemeral scalars and nonces they were made with.
pub proof fn lemma_same_plaintext(
    private: Seq<u8>,
    public: Seq<u8>,
    message: Seq<u8>,
    first: Seq<u8>,
    second: Seq<u8>,
)
    requires
        is_key_pair(private, public),
        seals(public, message, first),
        seals(public, message, second),
    ensures
        opened_envelope(private, first) == opened_envelope(private, second),
        opened_envelope(private, first) == Ok::<Seq<u8>, EciesError>(message),
{
    lemma_round_trip(private, public, message, first);
    lemma_round_trip(private, public, message, second);
}

/// An envelope shows what it was made with: two envelopes with different
/// ephemeral points, or with different nonces, are different envelopes.
/// This speaks of points, not of scalars: that two scalars have two points
/// is a fact of the group which nothing here claims.
pub proof fn lemma_fresh_draw_fresh_envelope(
    first_point: Seq<u8>,
    first_nonce: Seq<u8>,
    first_sealed: Seq<u8>,
    second_point: Seq<u8>,
    second_nonce: Seq<u8>,
    second_sealed: Seq<u8>,
)
    requires
        first_point.len() == POINT_SIZE,
        second_point.len() == POINT_SIZE,
        first_nonce.len() == NONCE_SIZE,
        second_nonce.len() == NONCE_SIZE,
        first_point != second_point || first_nonce != second_nonce,
    ensures
        first_point + (first_nonce + first_sealed) != second_point + (second_nonce
            + second_sealed),
{
    let first = first_point + (first_nonce + first_sealed);
    let second = second_point + (second_nonce + second_sealed);
    if first == second {
        assert(first.subrange(0, 65) =~= first_point);
        assert(second.subrange(0, 65) =~= second_point);
        assert(first.subrange(65, 77) =~= first_nonce);
        assert(second.subrange(65, 77) =~= second_nonce);
    }
}

} // verus!
