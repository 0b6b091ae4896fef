//! The curve secp256k1 as this crate sees it: byte encodings of scalars and
//! points, stated over natural numbers, and the arithmetic that is taken
//! from the `secp256k1` crate.
//!
//! A scalar is 32 bytes, big-endian. A point is 65 bytes: the tag `0x04`
//! and two big-endian coordinates of 32 bytes each. Which byte strings are
//! scalars and points is defined here in full. The two multiplications are
//! not: they are named, and the functions at the end of this file say what
//! is taken on trust about them.

use crate::bytes::all_zero;
use secp256k1::ecdh::shared_secret_point;
use secp256k1::{PublicKey, SecretKey};
use vstd::prelude::*;

verus! {

/// Length of an encoded scalar.
pub const SCALAR_SIZE: usize = 32;

/// Length of an encoded point.
pub const POINT_SIZE: usize = 65;

/// Tag of a point given by both coordinates.
pub const TAG_UNCOMPRESSED: u8 = 4;

/// Tag of a point given by both coordinates, which also says that `y` is even.
pub const TAG_HYBRID_EVEN: u8 = 6;

/// Tag of a point given by both coordinates, which also says that `y` is odd.
pub const TAG_HYBRID_ODD: u8 = 7;

/// The number that `bytes` is in base 256, most significant byte first.
pub open spec fn be_value(bytes: Seq<u8>) -> nat
    decreases bytes.len(),
{
    if bytes.len() == 0 {
        0
    } else {
        be_value(bytes.drop_last()) * 256 + bytes.last() as nat
    }
}

/// The prime of the field the curve is defined over, `2^256 - 2^32 - 977`.
pub open spec fn field_prime() -> nat {
    0xFFFFFFFF_FFFFFFFF_FFFFFFFF_FFFFFFFF_FFFFFFFF_FFFFFFFF_FFFFFFFE_FFFFFC2Fnat
}

/// The number of points in the group that the generator spans.
pub open spec fn group_order() -> nat {
    0xFFFFFFFF_FFFFFFFF_FFFFFFFF_FFFFFFFE_BAAEDCE6_AF48A03B_BFD25E8C_D0364141nat
}

/// `bytes` encodes a private scalar: 32 bytes whose value lies in `[1, n-1]`.
pub open spec fn valid_scalar(bytes: Seq<u8>) -> bool {
    &&& bytes.len() == SCALAR_SIZE
    &&& 0 < be_value(bytes) < group_order()
}

/// `(x, y)` is a point of the curve `y^2 = x^3 + 7` over the prime field.
pub open spec fn on_curve(x: nat, y: nat) -> bool {
    &&& x < field_prime()
    &&& y < field_prime()
    &&& (y * y) % field_prime() == (x * x * x + 7) % field_prime()
}

/// The first coordinate in a 65-byte encoding.
pub open spec fn x_of(encoding: Seq<u8>) -> nat {
    be_value(encoding.subrange(1, 33))
}

/// The second coordinate in a 65-byte encoding.
pub open spec fn y_of(encoding: Seq<u8>) -> nat {
    be_value(encoding.subrange(33, 65))
}

/// `encoding` is what the parser of `secp256k1` reads as a point in 65
/// bytes: both coordinates on the curve, under one of the three tags that
/// carry both coordinates, a hybrid tag only where it agrees with the parity
/// of `y`. This crate takes less: see `valid_point`.
pub open spec fn encodes_point(encoding: Seq<u8>) -> bool {
    &&& encoding.len() == POINT_SIZE
    &&& on_curve(x_of(encoding), y_of(encoding))
    &&& {
        ||| encoding[0] == TAG_UNCOMPRESSED
        ||| encoding[0] == TAG_HYBRID_EVEN && y_of(encoding) % 2 == 0
        ||| encoding[0] == TAG_HYBRID_ODD && y_of(encoding) % 2 == 1
    }
}

/// The encoding of the same point under the tag `0x04`.
pub open spec fn canonical_encoding(encoding: Seq<u8>) -> Seq<u8> {
    seq![TAG_UNCOMPRESSED] + encoding.subrange(1, 65)
}

/// `encoding` is the one encoding of a point that this crate takes and
/// writes: tag `0x04`, then `x`, then `y`, with `(x, y)` on the curve.
pub open spec fn valid_point(encoding: Seq<u8>) -> bool {
    &&& encodes_point(encoding)
    &&& encoding[0] == TAG_UNCOMPRESSED
}

/// Under the tag `0x04` an accepted encoding is a valid point, and a valid
/// point is its own canonical encoding.
pub proof fn lemma_canonical_is_valid(encoding: Seq<u8>)
    requires
        encodes_point(encoding),
    ensures
        valid_point(canonical_encoding(encoding)),
        valid_point(encoding) ==> canonical_encoding(encoding) == encoding,
{
    let canonical = canonical_encoding(encoding);
    assert(canonical.subrange(1, 33) =~= encoding.subrange(1, 33));
    assert(canonical.subrange(33, 65) =~= encoding.subrange(33, 65));
    if valid_point(encoding) {
        assert(canonical =~= encoding);
    }
}

/// Bytes that are all zero have the value zero, and are no valid scalar.
pub proof fn lemma_zero_scalar(bytes: Seq<u8>)
    requires
        all_zero(bytes),
    ensures
        be_value(bytes) == 0,
        !valid_scalar(bytes),
    decreases bytes.len(),
{
    if bytes.len() > 0 {
        lemma_zero_scalar(bytes.drop_last());
    }
}

/// The encoding, under tag `0x04`, of the generator multiplied by `scalar`.
/// Meant for a valid scalar.
pub uninterp spec fn generator_multiple(scalar: Seq<u8>) -> Seq<u8>;

/// The coordinates `x || y`, 64 bytes, of `point` multiplied by `scalar`.
/// Meant for a valid scalar and a valid point.
pub uninterp spec fn scalar_multiple(scalar: Seq<u8>, point: Seq<u8>) -> Seq<u8>;

/// Calls `secp256k1::SecretKey::from_secret_bytes` and reports whether it
/// accepted. Taken on trust: it accepts exactly the byte strings whose
/// big-endian value is neither zero nor at or above the group order.
#[verifier::external_body]
pub(crate) fn scalar_is_valid(bytes: &[u8; 32]) -> (accepted: bool)
    ensures
        accepted == valid_scalar(bytes@),
{
    SecretKey::from_secret_bytes(*bytes).is_ok()
}

/// Calls `secp256k1::PublicKey::from_byte_array_uncompressed` and, where it
/// accepts, `PublicKey::serialize_uncompressed` on the key. Taken on trust:
/// the parser accepts a tag of 4, 6 or 7 followed by two coordinates below
/// the field prime that satisfy the curve equation, a hybrid tag only with
/// the matching parity of `y`; the serializer writes tag 4 and the same two
/// coordinates.
#[verifier::external_body]
pub(crate) fn decode_point(bytes: &[u8; 65]) -> (point: Option<[u8; 65]>)
    ensures
        point is Some <==> encodes_point(bytes@),
        point matches Some(p) ==> p@ == canonical_encoding(bytes@),
{
    match PublicKey::from_byte_array_uncompressed(*bytes) {
        Ok(key) => Some(key.serialize_uncompressed()),
        Err(_) => None,
    }
}

/// Calls `secp256k1::PublicKey::from_secret_key` on the scalar and serializes
/// the key with `PublicKey::serialize_uncompressed`. Taken on trust: the
/// result is a function of the scalar alone, named `generator_multiple`, and
/// is a point of the curve under tag 4.
#[verifier::external_body]
pub(crate) fn multiply_generator(scalar: &[u8; 32]) -> (point: [u8; 65])
    requires
        valid_scalar(scalar@),
    ensures
        point@ == generator_multiple(scalar@),
        valid_point(point@),
{
    let key = SecretKey::from_secret_bytes(*scalar).expect("scalar in range");
    PublicKey::from_secret_key(&key).serialize_uncompressed()
}

/// Calls `secp256k1::ecdh::shared_secret_point`. Taken on trust: the result
/// is a function of scalar and point alone, named `scalar_multiple`; and the
/// two parties of a Diffie-Hellman exchange agree, that is, where `point` is
/// the generator multiplied by some other scalar, the result is also that
/// other scalar's multiple of this scalar's public point. The crate's
/// documentation of the function shows the agreement on two key pairs.
#[verifier::external_body]
pub(crate) fn multiply_point(scalar: &[u8; 32], point: &[u8; 65]) -> (xy: [u8; 64])
    requires
        valid_scalar(scalar@),
        valid_point(point@),
    ensures
        xy@ == scalar_multiple(scalar@, point@),
        forall|other: Seq<u8>|
            valid_scalar(other) && #[trigger] generator_multiple(other) == point@ ==> xy@
                == scalar_multiple(other, generator_multiple(scalar@)),
{
    let key = SecretKey::from_secret_bytes(*scalar).expect("scalar in range");
    let peer = PublicKey::from_byte_array_uncompressed(*point).expect("point on the curve");
    shared_secret_point(&peer, &key)
}

} // verus!
