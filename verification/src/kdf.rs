//! The NIST SP 800-56 concatenating key-derivation function over SHA-256:
//! round `i` contributes `SHA-256(BE32(i) ∥ z ∥ s1)`, and the concatenation is
//! truncated to the requested length.

use vstd::prelude::*;

use crate::bytes::append_bytes;
use crate::crypto::sha256;
use crate::crypto::sha256_of;

verus! {

/// The four-byte big-endian encoding of `n`.
pub open spec fn be32_bytes(n: u32) -> Seq<u8> {
    seq![(n >> 24) as u8, (n >> 16) as u8, (n >> 8) as u8, n as u8]
}

/// The concatenation of the first `rounds` rounds of the concatenating KDF:
/// round `i` (counted from 1) contributes `SHA-256(BE32(i) ∥ z ∥ s1)`.
pub open spec fn concat_kdf_rounds(z: Seq<u8>, s1: Seq<u8>, rounds: nat) -> Seq<u8>
    decreases rounds,
{
    if rounds == 0 {
        Seq::empty()
    } else {
        concat_kdf_rounds(z, s1, (rounds - 1) as nat) + sha256_of(
            be32_bytes(rounds as u32) + z + s1,
        )
    }
}

/// The concatenating KDF over SHA-256, truncated to `len` bytes.
pub open spec fn concat_kdf_spec(z: Seq<u8>, s1: Seq<u8>, len: nat) -> Seq<u8> {
    concat_kdf_rounds(z, s1, ((len + 31) / 32) as nat).take(len as int)
}

/// Derives key bytes from a shared secret by the concatenating KDF.
pub trait KeyDerivation {
    /// `len` bytes derived from the shared secret `z` and the extra input
    /// `s1`. The length is capped so that the four-byte round counter of the
    /// construction cannot wrap.
    fn concat_kdf(&self, z: &Vec<u8>, s1: &Vec<u8>, len: usize) -> (r: Vec<u8>)
        requires
            len <= 0xffff_ffff,
        ensures
            r@ == concat_kdf_spec(z@, s1@, len as nat),
            r@.len() == len,
    ;
}

/// The SHA-256 instance of the key derivation.
pub struct Sha256Kdf;

impl KeyDerivation for Sha256Kdf {
    fn concat_kdf(&self, z: &Vec<u8>, s1: &Vec<u8>, len: usize) -> (r: Vec<u8>) {
        let rounds: usize = len / 32 + if len % 32 == 0 {
            0
        } else {
            1
        };
        assert(rounds == (len + 31) / 32);
        let mut result: Vec<u8> = Vec::new();
        let mut count: usize = 0;
        while count < rounds
            invariant
                count <= rounds,
                rounds <= 0x0800_0000,
                result@ == concat_kdf_rounds(z@, s1@, count as nat),
                result@.len() == 32 * count,
            decreases rounds - count,
        {
            count = count + 1;
            let c = count as u32;
            let mut block: Vec<u8> = Vec::new();
            block.push((c >> 24) as u8);
            block.push((c >> 16) as u8);
            block.push((c >> 8) as u8);
            block.push(c as u8);
            assert(block@ =~= be32_bytes(c));
            append_bytes(&mut block, z);
            append_bytes(&mut block, s1);
            assert(block@ == be32_bytes(c) + z@ + s1@);
            let h = sha256(&block);
            append_bytes(&mut result, &h);
            assert(result@ == concat_kdf_rounds(z@, s1@, count as nat));
        }
        result.truncate(len);
        assert(result@ == concat_kdf_rounds(z@, s1@, rounds as nat).take(len as int));
        result
    }
}

} // verus!
