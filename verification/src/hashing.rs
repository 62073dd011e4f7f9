//! The digest by which proposals are told apart.

use sp_runtime::traits::BlakeTwo256;
use vstd::prelude::*;

verus! {

/// The number of bytes of a digest.
pub const DIGEST_LEN: usize = 32;

/// The Blake2b digest of 256 bits of a byte string, as `sp_runtime` computes it.
pub uninterp spec fn blake2_256_digest(data: Seq<u8>) -> Seq<u8>;

/// Calls `<sp_runtime::traits::BlakeTwo256 as sp_runtime::traits::Hash>::hash`.
///
/// Trusted: the result is the 32 bytes of the `H256` that the call returns, and
/// it depends on the bytes of `data` alone.
#[verifier::external_body]
pub(crate) fn blake2_256(data: &Vec<u8>) -> (digest: Vec<u8>)
    ensures
        digest@ == blake2_256_digest(data@),
        digest@.len() == DIGEST_LEN,
{
    <BlakeTwo256 as sp_runtime::traits::Hash>::hash(data.as_slice()).as_bytes().to_vec()
}

/// Whether two byte strings are equal.
pub fn same_bytes(a: &Vec<u8>, b: &Vec<u8>) -> (same: bool)
    ensures
        same == (a@ == b@),
{
    if a.len() != b.len() {
        return false;
    }
    let mut i: usize = 0;
    while i < a.len()
        invariant
            i <= a.len(),
            a.len() == b.len(),
            forall|j: int| 0 <= j < i ==> a@[j] == b@[j],
        decreases a.len() - i,
    {
        if a[i] != b[i] {
            return false;
        }
        i += 1;
    }
    assert(a@ =~= b@);
    true
}

} // verus!
