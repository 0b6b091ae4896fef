//! The failures that the operations of this crate report.

use vstd::prelude::*;

verus! {

/// Why an operation produced no output.
#[derive(Clone, Copy, Debug, PartialEq, Eq, Structural)]
pub enum EciesError {
    /// The private scalar is zero or not below the order of the curve group,
    /// or is not 32 bytes long.
    InvalidPrivateKey,
    /// The public key is not the 65-byte encoding of a point on the curve.
    InvalidPublicKey,
    /// The envelope is shorter than the public key it has to start with.
    MalformedEnvelope,
    /// The cipher output is shorter than the nonce it has to start with.
    MalformedInput,
    /// The authentication tag does not match key, nonce and ciphertext.
    AuthenticationFailure,
    /// The random source of the system did not deliver.
    RandomSourceFailure,
    /// The message is longer than the cipher takes under one nonce, or than
    /// an envelope can be on this machine.
    MessageTooLong,
}

/// The outcome of an operation that returns bytes, with the bytes as a
/// sequence.
pub open spec fn outcome(result: Result<Vec<u8>, EciesError>) -> Result<Seq<u8>, EciesError> {
    match result {
        Ok(bytes) => Ok(bytes@),
        Err(error) => Err(error),
    }
}

} // verus!
