use vstd::prelude::*;
use crate::crypto::{sha256, sha256_of};

verus! {

/// The PIN hash: the first 16 bytes of the SHA-256 digest of the PIN.
pub open spec fn pin_hash_of(pin: Seq<u8>) -> Seq<u8> {
    sha256_of(pin).subrange(0, 16)
}

/// Copies the first `n` bytes of `v` into a fresh vector.
pub(crate) fn take_prefix(v: &Vec<u8>, n: usize) -> (r: Vec<u8>)
    requires
        n <= v@.len(),
    ensures
        r@ == v@.subrange(0, n as int),
{
    let mut r: Vec<u8> = Vec::new();
    let mut i: usize = 0;
    while i < n
        invariant
            i <= n,
            n <= v@.len(),
            r@ == v@.subrange(0, i as int),
        decreases n - i,
    {
        r.push(v[i]);
        proof {
            assert(r@ =~= v@.subrange(0, i + 1));
        }
        i = i + 1;
    }
    r
}

/// Reduces a PIN to the 16-byte value the authenticator verifies:
/// the left half of SHA-256 over the raw PIN bytes. Total, and 16 bytes
/// long for every input, the empty PIN included; the raw PIN itself is
/// never what gets encrypted and sent.
pub fn pin_hash(pin: &[u8]) -> (r: Vec<u8>)
    ensures
        r@ == pin_hash_of(pin@),
        r@.len() == 16,
{
    let hashed = sha256(pin);
    take_prefix(&hashed, 16)
}

/// Two PIN hashes over the same PIN bytes are the same value.
pub proof fn lemma_pin_hash_deterministic(pin: Seq<u8>, h1: Seq<u8>, h2: Seq<u8>)
    requires
        h1 == pin_hash_of(pin),
        h2 == pin_hash_of(pin),
    ensures
        h1 == h2,
{
}

} // verus!
