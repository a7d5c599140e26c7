//! Byte-string helpers shared by the handshake and the frame codec: byte-wise
//! XOR, big-endian integer views, and small vector utilities.

use vstd::prelude::*;

verus! {

/// Byte-wise XOR of `a` with the first `|a|` bytes of `b`.
pub open spec fn xor_seq(a: Seq<u8>, b: Seq<u8>) -> Seq<u8> {
    Seq::new(a.len(), |i: int| a[i] ^ b[i])
}

/// Byte-wise XOR of two equally long byte strings.
pub fn xor_bytes(a: &Vec<u8>, b: &Vec<u8>) -> (r: Vec<u8>)
    requires
        a@.len() == b@.len(),
    ensures
        r@ == xor_seq(a@, b@),
{
    let mut r: Vec<u8> = Vec::new();
    let mut i: usize = 0;
    while i < a.len()
        invariant
            i <= a@.len(),
            a@.len() == b@.len(),
            r@ == xor_seq(a@, b@).take(i as int),
        decreases a@.len() - i,
    {
        r.push(a[i] ^ b[i]);
        assert(r@ =~= xor_seq(a@, b@).take(i + 1));
        i = i + 1;
    }
    assert(r@ =~= xor_seq(a@, b@));
    r
}

/// The value of a byte string read as a big-endian unsigned integer.
pub open spec fn be_val(s: Seq<u8>) -> nat
    decreases s.len(),
{
    if s.len() == 0 {
        0
    } else {
        be_val(s.drop_last()) * 256 + (s.last() as nat)
    }
}

/// The value of the first three bytes read as a big-endian integer.
pub open spec fn be24_val(s: Seq<u8>) -> int {
    (s[0] as int) * 0x10000 + (s[1] as int) * 0x100 + (s[2] as int)
}

/// The three-byte big-endian encoding of `n`.
pub open spec fn be24_bytes(n: u32) -> Seq<u8> {
    seq![(n >> 16) as u8, (n >> 8) as u8, n as u8]
}

/// Reading back a three-byte big-endian encoding restores the value.
pub proof fn lemma_be24_round_trip(n: u32)
    requires
        n < 0x1000000,
    ensures
        be24_val(be24_bytes(n)) == n,
{
    assert((((n >> 16) as u8) as int) * 0x10000 + (((n >> 8) as u8) as int) * 0x100
        + ((n as u8) as int) == n) by (bit_vector)
        requires n < 0x1000000;
}

/// The big-endian value of the first three bytes of `arg`.
pub fn bytes_to_u24(arg: &[u8]) -> (r: u32)
    requires
        arg@.len() >= 3,
    ensures
        r == be24_val(arg@),
        r < 0x1000000,
{
    let b0 = arg[0];
    let b1 = arg[1];
    let b2 = arg[2];
    proof {
        let x = b0;
        let y = b1;
        let z = b2;
        assert((((x as u32) << 16) as int) + (((y as u32) << 8) as int) + ((z as u32) as int)
            == (x as int) * 0x10000 + (y as int) * 0x100 + (z as int)
            && (((x as u32) << 16) as int) + (((y as u32) << 8) as int) + ((z as u32) as int)
                < 0x1000000) by (bit_vector);
    }
    ((b0 as u32) << 16) + ((b1 as u32) << 8) + (b2 as u32)
}

/// The three-byte big-endian encoding of `n`, which must fit in 24 bits.
pub fn u24_to_bytes(n: u32) -> (r: Vec<u8>)
    requires
        n < 0x1000000,
    ensures
        r@ == be24_bytes(n),
{
    let mut r: Vec<u8> = Vec::new();
    r.push((n >> 16) as u8);
    r.push((n >> 8) as u8);
    r.push(n as u8);
    assert(r@ =~= be24_bytes(n));
    r
}

/// A copy of `v[a .. b]`.
pub fn subvec(v: &Vec<u8>, a: usize, b: usize) -> (r: Vec<u8>)
    requires
        a <= b <= v@.len(),
    ensures
        r@ == v@.subrange(a as int, b as int),
{
    let mut r: Vec<u8> = Vec::new();
    let mut i: usize = a;
    while i < b
        invariant
            a <= i <= b <= v@.len(),
            r@ == v@.subrange(a as int, i as int),
        decreases b - i,
    {
        r.push(v[i]);
        assert(r@ =~= v@.subrange(a as int, i + 1));
        i = i + 1;
    }
    r
}

/// Appends a copy of `src` to `dst`.
pub fn append_bytes(dst: &mut Vec<u8>, src: &Vec<u8>)
    ensures
        final(dst)@ == old(dst)@ + src@,
{
    let mut i: usize = 0;
    while i < src.len()
        invariant
            i <= src@.len(),
            dst@ == old(dst)@ + src@.take(i as int),
        decreases src@.len() - i,
    {
        dst.push(src[i]);
        assert(dst@ =~= old(dst)@ + src@.take(i + 1));
        i = i + 1;
    }
    assert(dst@ =~= old(dst)@ + src@);
}

/// The concatenation of two byte strings as a fresh vector.
pub fn concat_bytes(a: &Vec<u8>, b: &Vec<u8>) -> (r: Vec<u8>)
    ensures
        r@ == a@ + b@,
{
    let mut r: Vec<u8> = Vec::new();
    append_bytes(&mut r, a);
    append_bytes(&mut r, b);
    assert(r@ =~= a@ + b@);
    r
}

/// `n` zero bytes.
pub fn zero_bytes(n: usize) -> (r: Vec<u8>)
    ensures
        r@ == Seq::new(n as nat, |i: int| 0u8),
{
    let mut r: Vec<u8> = Vec::new();
    let mut i: usize = 0;
    while i < n
        invariant
            i <= n,
            r@ == Seq::new(i as nat, |j: int| 0u8),
        decreases n - i,
    {
        r.push(0u8);
        assert(r@ =~= Seq::new((i + 1) as nat, |j: int| 0u8));
        i = i + 1;
    }
    r
}

} // verus!
