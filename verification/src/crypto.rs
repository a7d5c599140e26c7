//! The cryptographic primitives, each behind a small trusted wrapper whose
//! contract states what the outside crate computes. Results that no short
//! formula can state (digests, keystreams, curve operations) are given names:
//! uninterpreted spec functions of the call's arguments alone.

use vstd::prelude::*;

use crate::bytes::be_val;
use crate::Error;

verus! {

/// The SHA-256 digest of a byte string.
pub uninterp spec fn sha256_of(data: Seq<u8>) -> Seq<u8>;

/// The Keccak-256 digest of a byte string.
pub uninterp spec fn keccak256_of(data: Seq<u8>) -> Seq<u8>;

/// The HMAC-SHA-256 tag over `data` under `key`.
pub uninterp spec fn hmac_sha256_of(key: Seq<u8>, data: Seq<u8>) -> Seq<u8>;

/// Byte `i` of the AES-128-CTR keystream for `key` and `iv`.
pub uninterp spec fn aes128_ctr_byte(key: Seq<u8>, iv: Seq<u8>, i: int) -> u8;

/// Byte `i` of the AES-256-CTR keystream for `key` and `iv`.
pub uninterp spec fn aes256_ctr_byte(key: Seq<u8>, iv: Seq<u8>, i: int) -> u8;

/// The AES-256 encryption of a single 16-byte block under `key`.
pub uninterp spec fn aes256_block_of(key: Seq<u8>, block: Seq<u8>) -> Seq<u8>;

/// The X coordinate of the secp256k1 point `sk · P`, where `P` is the point
/// that the 65-byte uncompressed serialization `pk` encodes.
pub uninterp spec fn ecdh_x(sk: Seq<u8>, pk: Seq<u8>) -> Seq<u8>;

/// The 65-byte uncompressed serialization of the secp256k1 public key of `sk`.
pub uninterp spec fn pubkey_of(sk: Seq<u8>) -> Seq<u8>;

/// The 64-byte compact serialization of the recoverable ECDSA signature of
/// `digest` under `sk` with the RFC 6979 deterministic nonce.
pub uninterp spec fn sig_of(sk: Seq<u8>, digest: Seq<u8>) -> Seq<u8>;

/// The recovery id of that signature.
pub uninterp spec fn recid_of(sk: Seq<u8>, digest: Seq<u8>) -> u8;

/// The order of the secp256k1 group.
pub open spec fn curve_order() -> nat {
    0xFFFFFFFF_FFFFFFFF_FFFFFFFF_FFFFFFFE_BAAEDCE6_AF48A03B_BFD25E8C_D0364141nat
}

/// The prime of the secp256k1 base field.
pub open spec fn field_prime() -> nat {
    0xFFFFFFFF_FFFFFFFF_FFFFFFFF_FFFFFFFF_FFFFFFFF_FFFFFFFF_FFFFFFFE_FFFFFC2Fnat
}

/// A valid secret key: 32 big-endian bytes, nonzero and below the group order.
pub open spec fn valid_sk(sk: Seq<u8>) -> bool {
    sk.len() == 32 && 0 < be_val(sk) < curve_order()
}

/// A valid uncompressed public key: the 0x04 tag and a point on the curve,
/// both coordinates reduced field elements.
pub open spec fn valid_pk(pk: Seq<u8>) -> bool {
    pk.len() == 65 && pk[0] == 4 && {
        let x = be_val(pk.subrange(1, 33));
        let y = be_val(pk.subrange(33, 65));
        x < field_prime() && y < field_prime() && (y * y) % field_prime() == (x * x * x
            + 7) % field_prime()
    }
}

/// Relies on sha2::Sha256::digest: the SHA-256 digest, 32 bytes, a function of
/// the input bytes alone.
#[verifier::external_body]
pub(crate) fn sha256(data: &Vec<u8>) -> (r: Vec<u8>)
    ensures
        r@ == sha256_of(data@),
        r@.len() == 32,
{
    <sha2::Sha256 as sha2::Digest>::digest(data.as_slice()).as_slice().to_vec()
}

/// Relies on sha3::Keccak256::digest: the Keccak-256 digest, 32 bytes, a
/// function of the input bytes alone.
#[verifier::external_body]
pub(crate) fn keccak256(data: &Vec<u8>) -> (r: Vec<u8>)
    ensures
        r@ == keccak256_of(data@),
        r@.len() == 32,
{
    <sha3::Keccak256 as sha3::Digest>::digest(data.as_slice()).as_slice().to_vec()
}

/// Relies on hmac::Hmac over sha2::Sha256: the HMAC-SHA-256 tag, 32 bytes, a
/// function of key and message alone; keys of any length are accepted.
#[verifier::external_body]
pub(crate) fn hmac_sha256(key: &Vec<u8>, data: &Vec<u8>) -> (r: Vec<u8>)
    ensures
        r@ == hmac_sha256_of(key@, data@),
        r@.len() == 32,
{
    let mut m = <hmac::Hmac<sha2::Sha256> as hmac::KeyInit>::new_from_slice(key.as_slice())
        .expect("HMAC accepts keys of any length");
    hmac::Mac::update(&mut m, data.as_slice());
    hmac::Mac::finalize(m).into_bytes().as_slice().to_vec()
}

/// Relies on ctr::Ctr128BE over aes::Aes128: CTR mode XORs the data with the
/// keystream that key and iv alone determine; its byte `i` is named
/// `aes128_ctr_byte(key, iv, i)`.
#[verifier::external_body]
pub(crate) fn aes128_ctr(key: &Vec<u8>, iv: &Vec<u8>, data: &Vec<u8>) -> (r: Vec<u8>)
    requires
        key@.len() == 16,
        iv@.len() == 16,
    ensures
        r@.len() == data@.len(),
        forall|i: int|
            0 <= i < data@.len() ==> r@[i] == (data@[i] ^ aes128_ctr_byte(key@, iv@, i)),
{
    let mut c = <ctr::Ctr128BE<aes::Aes128> as aes::cipher::KeyIvInit>::new_from_slices(
        key.as_slice(),
        iv.as_slice(),
    ).expect("key and iv lengths are checked by the caller");
    let mut buf = data.clone();
    aes::cipher::StreamCipher::apply_keystream(&mut c, buf.as_mut_slice());
    buf
}

/// Relies on ctr::Ctr128BE over aes::Aes256 with StreamCipherSeek: seeking to
/// `pos` and applying the cipher XORs the data with the keystream bytes from
/// `pos` on; byte `i` of that keystream is named `aes256_ctr_byte(key, iv, i)`.
#[verifier::external_body]
pub(crate) fn aes256_ctr_at(key: &Vec<u8>, iv: &Vec<u8>, pos: u64, data: &Vec<u8>) -> (r: Vec<u8>)
    requires
        key@.len() == 32,
        iv@.len() == 16,
        pos + data@.len() <= u64::MAX,
    ensures
        r@.len() == data@.len(),
        forall|i: int|
            0 <= i < data@.len() ==> r@[i] == (data@[i] ^ aes256_ctr_byte(key@, iv@, pos + i)),
{
    let mut c = <ctr::Ctr128BE<aes::Aes256> as aes::cipher::KeyIvInit>::new_from_slices(
        key.as_slice(),
        iv.as_slice(),
    ).expect("key and iv lengths are checked by the caller");
    aes::cipher::StreamCipherSeek::seek(&mut c, pos);
    let mut buf = data.clone();
    aes::cipher::StreamCipher::apply_keystream(&mut c, buf.as_mut_slice());
    buf
}

/// Relies on aes::Aes256 and cipher::BlockCipherEncrypt::encrypt_block: a
/// single-block AES-256 encryption, a function of key and block alone.
#[verifier::external_body]
pub(crate) fn aes256_encrypt_block(key: &Vec<u8>, block: &Vec<u8>) -> (r: Vec<u8>)
    requires
        key@.len() == 32,
        block@.len() == 16,
    ensures
        r@ == aes256_block_of(key@, block@),
        r@.len() == 16,
{
    let c = <aes::Aes256 as aes::cipher::KeyInit>::new_from_slice(key.as_slice())
        .expect("the key length is checked by the caller");
    let mut b = aes::Block::try_from(block.as_slice())
        .expect("the block length is checked by the caller");
    aes::cipher::BlockCipherEncrypt::encrypt_block(&c, &mut b);
    b.as_slice().to_vec()
}

/// Relies on secp256k1::SecretKey::from_secret_bytes, which accepts exactly
/// the 32-byte big-endian scalars that are nonzero and below the group order.
#[verifier::external_body]
pub(crate) fn secret_key_ok(sk: &Vec<u8>) -> (r: bool)
    requires
        sk@.len() == 32,
    ensures
        r == valid_sk(sk@),
{
    match <[u8; 32]>::try_from(sk.as_slice()) {
        Ok(a) => secp256k1::SecretKey::from_secret_bytes(a).is_ok(),
        Err(_) => false,
    }
}

/// Relies on secp256k1::PublicKey::from_byte_array_uncompressed, which accepts
/// a 65-byte serialization with tag 0x04 exactly when both coordinates are
/// reduced field elements and the point lies on the curve.
#[verifier::external_body]
pub(crate) fn public_key_ok(pk: &Vec<u8>) -> (r: bool)
    requires
        pk@.len() == 65,
        pk@[0] == 4,
    ensures
        r == valid_pk(pk@),
{
    match <[u8; 65]>::try_from(pk.as_slice()) {
        Ok(a) => secp256k1::PublicKey::from_byte_array_uncompressed(a).is_ok(),
        Err(_) => false,
    }
}

/// Relies on secp256k1::PublicKey::from_secret_key and serialize_uncompressed:
/// the public key of a valid secret key, 65 bytes with a leading 0x04 tag and
/// a point on the curve, a function of the secret key alone, named `pubkey_of`.
#[verifier::external_body]
pub(crate) fn derive_public_key(sk: &Vec<u8>) -> (r: Result<Vec<u8>, Error>)
    requires
        sk@.len() == 32,
    ensures
        r is Ok <==> valid_sk(sk@),
        r matches Ok(pk) ==> pk@ == pubkey_of(sk@) && valid_pk(pk@),
{
    let a = <[u8; 32]>::try_from(sk.as_slice()).expect("the length is checked by the caller");
    match secp256k1::SecretKey::from_secret_bytes(a) {
        Ok(k) => Ok(
            secp256k1::PublicKey::from_secret_key(&k).serialize_uncompressed().to_vec(),
        ),
        Err(_) => Err(Error::Crypto),
    }
}

/// An ECDH result `x`, computed under `sk` against `pk`, agrees with the peer:
/// whenever `pk` is the public key of some valid secret `e`, `x` is also what
/// the peer computes under `e` against `pubkey_of(sk)`.
pub open spec fn dh_agrees(sk: Seq<u8>, pk: Seq<u8>, x: Seq<u8>) -> bool {
    forall|e: Seq<u8>| valid_sk(e) && pk == pubkey_of(e) ==> x == ecdh_x(e, pubkey_of(sk))
}

/// Relies on secp256k1::ecdh::shared_secret_point: the first 32 of its 64
/// result bytes are the X coordinate of the point `sk · P`, a function of the
/// arguments alone, named `ecdh_x`. Because `sk · (e · G)` and `e · (sk · G)`
/// are the same point, a result computed against a public key that is
/// `pubkey_of(e)` for some valid `e` equals `ecdh_x(e, pubkey_of(sk))`: the
/// two ends of a Diffie-Hellman exchange agree.
#[verifier::external_body]
pub(crate) fn ecdh(sk: &Vec<u8>, pk: &Vec<u8>) -> (r: Result<Vec<u8>, Error>)
    requires
        sk@.len() == 32,
        pk@.len() == 65,
        pk@[0] == 4,
    ensures
        r is Ok <==> (valid_sk(sk@) && valid_pk(pk@)),
        r matches Ok(x) ==> x@ == ecdh_x(sk@, pk@) && x@.len() == 32 && dh_agrees(sk@, pk@, x@),
{
    let ska = <[u8; 32]>::try_from(sk.as_slice()).expect("the length is checked by the caller");
    let pka = <[u8; 65]>::try_from(pk.as_slice()).expect("the length is checked by the caller");
    let skey = match secp256k1::SecretKey::from_secret_bytes(ska) {
        Ok(k) => k,
        Err(_) => return Err(Error::Crypto),
    };
    let pkey = match secp256k1::PublicKey::from_byte_array_uncompressed(pka) {
        Ok(k) => k,
        Err(_) => return Err(Error::Malformed),
    };
    let xy = secp256k1::ecdh::shared_secret_point(&pkey, &skey);
    Ok(xy[..32].to_vec())
}

/// Relies on secp256k1::ecdsa::RecoverableSignature::sign_ecdsa_recoverable
/// and serialize_compact: signing uses the RFC 6979 deterministic nonce, so
/// the 64 compact bytes and the recovery id are functions of digest and key
/// alone, named `sig_of` and `recid_of`; the recovery id is below 4.
#[verifier::external_body]
pub(crate) fn sign_recoverable(sk: &Vec<u8>, digest: &Vec<u8>) -> (r: Result<(Vec<u8>, u8), Error>)
    requires
        sk@.len() == 32,
        digest@.len() == 32,
    ensures
        r is Ok <==> valid_sk(sk@),
        r matches Ok(s) ==> s.0@ == sig_of(sk@, digest@) && s.0@.len() == 64 && s.1 == recid_of(
            sk@,
            digest@,
        ) && s.1 < 4,
{
    let ska = <[u8; 32]>::try_from(sk.as_slice()).expect("the length is checked by the caller");
    let da = <[u8; 32]>::try_from(digest.as_slice()).expect("the length is checked by the caller");
    let skey = match secp256k1::SecretKey::from_secret_bytes(ska) {
        Ok(k) => k,
        Err(_) => return Err(Error::Crypto),
    };
    let msg = secp256k1::Message::from_digest(da);
    let sig = secp256k1::ecdsa::RecoverableSignature::sign_ecdsa_recoverable(msg, &skey);
    let (recid, compact) = sig.serialize_compact();
    Ok((compact.to_vec(), recid.to_u8()))
}

/// Relies on rand::fill over the thread-local cryptographically secure RNG;
/// nothing is known of the bytes but their number.
#[verifier::external_body]
pub(crate) fn random_bytes(n: usize) -> (r: Vec<u8>)
    ensures
        r@.len() == n,
{
    let mut v = vec![0u8; n];
    rand::fill(v.as_mut_slice());
    v
}

/// Relies on subtle::ConstantTimeEq for byte slices: whether the two byte
/// strings are equal, decided without data-dependent timing.
#[verifier::external_body]
pub(crate) fn ct_eq(a: &Vec<u8>, b: &Vec<u8>) -> (r: bool)
    ensures
        r == (a@ == b@),
{
    bool::from(subtle::ConstantTimeEq::ct_eq(a.as_slice(), b.as_slice()))
}

/// A fresh secp256k1 keypair: 32 secret bytes and the matching 65-byte
/// uncompressed public key. Random 32-byte strings are drawn until one is a
/// valid scalar; the chance that one draw fails is below 2^-127, so the retry
/// bound is never reached in practice.
pub fn generate_keypair() -> (r: Result<(Vec<u8>, Vec<u8>), Error>)
    ensures
        r matches Ok(kp) ==> valid_sk(kp.0@) && kp.0@.len() == 32 && kp.1@ == pubkey_of(kp.0@)
            && valid_pk(kp.1@) && kp.1@.len() == 65,
        r is Err ==> r == Err::<(Vec<u8>, Vec<u8>), Error>(Error::Crypto),
{
    let mut tries: usize = 0;
    while tries < 256
        invariant
            tries <= 256,
        decreases 256 - tries,
    {
        let sk = random_bytes(32);
        if secret_key_ok(&sk) {
            let pk = match derive_public_key(&sk) {
                Ok(pk) => pk,
                Err(_) => return Err(Error::Crypto),
            };
            return Ok((sk, pk));
        }
        tries = tries + 1;
    }
    Err(Error::Crypto)
}

/// A Keccak-256 sponge, modelled by the transcript of all bytes absorbed so
/// far; its view is that transcript. `peek` digests the whole transcript,
/// which equals finalizing a clone of an incrementally updated sponge.
#[derive(Debug, Clone, PartialEq, Eq)]
pub struct Sponge {
    data: Vec<u8>,
}

impl View for Sponge {
    type V = Seq<u8>;

    closed spec fn view(&self) -> Seq<u8> {
        self.data@
    }
}

impl Sponge {
    /// A sponge that has absorbed nothing.
    pub fn new() -> (s: Sponge)
        ensures
            s@ == Seq::<u8>::empty(),
    {
        let s = Sponge { data: Vec::new() };
        proof {
            assert(s@ =~= Seq::<u8>::empty());
        }
        s
    }

    /// Absorbs `data` into the sponge.
    pub fn absorb(&mut self, data: &Vec<u8>)
        ensures
            final(self)@ == old(self)@ + data@,
    {
        crate::bytes::append_bytes(&mut self.data, data);
    }

    /// The digest of everything absorbed so far; the sponge is not mutated.
    pub fn peek(&self) -> (r: Vec<u8>)
        ensures
            r@ == keccak256_of(self@),
            r@.len() == 32,
    {
        keccak256(&self.data)
    }
}

} // verus!
