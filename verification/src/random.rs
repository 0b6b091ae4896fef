//! The random source of the operating system, through the crate `getrandom`.

use vstd::prelude::*;

verus! {

/// Calls `getrandom::fill` on a fresh buffer of `N` bytes and hands the
/// buffer out where the call succeeded. Nothing is claimed of the bytes:
/// every value may come back, and two calls need not agree.
#[verifier::external_body]
pub(crate) fn random_bytes<const N: usize>() -> (bytes: Option<[u8; N]>) {
    let mut buffer = [0u8; N];
    match getrandom::fill(&mut buffer) {
        Ok(()) => Some(buffer),
        Err(_) => None,
    }
}

} // verus!
