//! Moving bytes into arrays, and clearing arrays that held a secret.

use vstd::prelude::*;

verus! {

/// Every byte of `bytes` is zero.
pub open spec fn all_zero(bytes: Seq<u8>) -> bool {
    forall|i: int| 0 <= i < bytes.len() ==> bytes[i] == 0
}

/// The `N` bytes of `bytes`, as an array.
pub fn to_array<const N: usize>(bytes: &[u8]) -> (array: [u8; N])
    requires
        bytes@.len() == N,
    ensures
        array@ == bytes@,
{
    let mut array = [0u8; N];
    let mut i: usize = 0;
    while i < N
        invariant
            i <= N,
            bytes@.len() == N,
            array@.len() == N,
            forall|j: int| 0 <= j < i ==> array@[j] == bytes@[j],
        decreases N - i,
    {
        array[i] = bytes[i];
        i += 1;
    }
    assert(array@ =~= bytes@);
    array
}

/// Overwrites `buffer` with zeros. Meant for buffers that held a secret
/// which is no longer needed.
pub fn wipe<const N: usize>(buffer: &mut [u8; N])
    ensures
        all_zero(final(buffer)@),
{
    let mut i: usize = 0;
    while i < N
        invariant
            i <= N,
            buffer@.len() == N,
            forall|j: int| 0 <= j < i ==> buffer@[j] == 0,
        decreases N - i,
    {
        buffer[i] = 0;
        i += 1;
    }
}

} // verus!
