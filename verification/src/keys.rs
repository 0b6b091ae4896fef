//! Private scalars and public points: byte arrays that have passed the
//! curve's validity checks.

use crate::bytes::to_array;
use crate::curve::{
    decode_point, generator_multiple, lemma_canonical_is_valid, multiply_generator,
    scalar_is_valid, valid_point, valid_scalar, TAG_UNCOMPRESSED,
};
use crate::error::EciesError;
use vstd::prelude::*;

verus! {

/// A private scalar: 32 bytes, big-endian, with a value in `[1, n-1]`.
pub struct PrivateScalar {
    bytes: [u8; 32],
}

/// A point of the curve other than the point at infinity, held in its
/// uncompressed encoding: the tag `0x04`, then `x`, then `y`.
#[derive(Clone, Copy, Debug)]
pub struct PublicPoint {
    bytes: [u8; 65],
}

impl View for PrivateScalar {
    type V = Seq<u8>;

    closed spec fn view(&self) -> Seq<u8> {
        self.bytes@
    }
}

impl View for PublicPoint {
    type V = Seq<u8>;

    closed spec fn view(&self) -> Seq<u8> {
        self.bytes@
    }
}

impl PrivateScalar {
    #[verifier::type_invariant]
    spec fn in_range(&self) -> bool {
        valid_scalar(self.bytes@)
    }

    /// Reads a scalar from untrusted bytes. Anything but 32 bytes with a
    /// value in `[1, n-1]` is refused.
    pub fn from_bytes(bytes: &[u8]) -> (scalar: Result<PrivateScalar, EciesError>)
        ensures
            match scalar {
                Ok(s) => valid_scalar(bytes@) && s@ == bytes@,
                Err(e) => !valid_scalar(bytes@) && e == EciesError::InvalidPrivateKey,
            },
    {
        if bytes.len() != 32 {
            return Err(EciesError::InvalidPrivateKey);
        }
        let array: [u8; 32] = to_array(bytes);
        if scalar_is_valid(&array) {
            Ok(PrivateScalar { bytes: array })
        } else {
            Err(EciesError::InvalidPrivateKey)
        }
    }

    /// The 32 bytes of the scalar.
    pub fn to_bytes(&self) -> (bytes: [u8; 32])
        ensures
            bytes@ == self@,
            valid_scalar(self@),
    {
        proof {
            use_type_invariant(self);
        }
        self.bytes
    }

    /// The public point that belongs to this scalar: the generator
    /// multiplied by it.
    pub fn public_point(&self) -> (point: PublicPoint)
        ensures
            point@ == generator_multiple(self@),
            valid_point(point@),
            valid_scalar(self@),
    {
        proof {
            use_type_invariant(self);
        }
        PublicPoint { bytes: multiply_generator(&self.bytes) }
    }
}

impl PublicPoint {
    #[verifier::type_invariant]
    spec fn well_encoded(&self) -> bool {
        valid_point(self.bytes@)
    }

    /// Reads a point from untrusted bytes. Accepted are 65 bytes that hold
    /// the tag `0x04` and two coordinates on the curve, and nothing else: no
    /// other length, no other tag.
    pub fn from_bytes(bytes: &[u8]) -> (point: Result<PublicPoint, EciesError>)
        ensures
            match point {
                Ok(p) => valid_point(bytes@) && p@ == bytes@,
                Err(e) => !valid_point(bytes@) && e == EciesError::InvalidPublicKey,
            },
    {
        if bytes.len() != 65 {
            return Err(EciesError::InvalidPublicKey);
        }
        if bytes[0] != TAG_UNCOMPRESSED {
            return Err(EciesError::InvalidPublicKey);
        }
        let array: [u8; 65] = to_array(bytes);
        match decode_point(&array) {
            Some(decoded) => {
                proof {
                    lemma_canonical_is_valid(bytes@);
                }
                Ok(PublicPoint { bytes: decoded })
            },
            None => Err(EciesError::InvalidPublicKey),
        }
    }

    /// The 65 bytes of the point: `0x04`, then `x`, then `y`.
    pub fn serialize_uncompressed(&self) -> (bytes: [u8; 65])
        ensures
            bytes@ == self@,
            valid_point(self@),
    {
        proof {
            use_type_invariant(self);
        }
        self.bytes
    }
}

} // verus!
