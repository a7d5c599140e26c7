//! The ECIES envelope that protects the handshake payloads: ephemeral
//! secp256k1 ECDH, the concatenating KDF, AES-128-CTR, and an HMAC-SHA-256
//! tag over the IV and the ciphertext. A ciphertext is
//! `ephemeral key (65) ∥ IV (16) ∥ body (|plaintext|) ∥ tag (32)`.

use vstd::prelude::*;

use crate::bytes::subvec;
use crate::bytes::append_bytes;
use crate::crypto::aes128_ctr;
use crate::crypto::aes128_ctr_byte;
use crate::crypto::ct_eq;
use crate::crypto::dh_agrees;
use crate::crypto::ecdh;
use crate::crypto::ecdh_x;
use crate::crypto::generate_keypair;
use crate::crypto::hmac_sha256;
use crate::crypto::hmac_sha256_of;
use crate::crypto::public_key_ok;
use crate::crypto::pubkey_of;
use crate::crypto::random_bytes;
use crate::crypto::secret_key_ok;
use crate::crypto::sha256;
use crate::crypto::sha256_of;
use crate::crypto::valid_pk;
use crate::crypto::valid_sk;
use crate::kdf::concat_kdf_spec;
use crate::kdf::KeyDerivation;
use crate::kdf::Sha256Kdf;
use crate::Error;

verus! {

/// The symmetric encryption key: the first 16 derived bytes.
pub open spec fn ecies_ke(z: Seq<u8>) -> Seq<u8> {
    concat_kdf_spec(z, Seq::empty(), 32).take(16)
}

/// The tag key: the SHA-256 digest of the last 16 derived bytes.
pub open spec fn ecies_km(z: Seq<u8>) -> Seq<u8> {
    sha256_of(concat_kdf_spec(z, Seq::empty(), 32).skip(16))
}

/// `data` XOR-ed with the AES-128-CTR keystream under `key` and `iv`.
pub open spec fn ctr128_xor(key: Seq<u8>, iv: Seq<u8>, data: Seq<u8>) -> Seq<u8> {
    Seq::new(data.len(), |i: int| data[i] ^ aes128_ctr_byte(key, iv, i))
}

/// Applying the keystream twice restores the data.
pub proof fn lemma_ctr128_involutive(key: Seq<u8>, iv: Seq<u8>, data: Seq<u8>)
    ensures
        ctr128_xor(key, iv, ctr128_xor(key, iv, data)) == data,
{
    assert forall|i: int|
        0 <= i < data.len() implies ctr128_xor(key, iv, ctr128_xor(key, iv, data))[i]
        == data[i] by {
        let x = data[i];
        let k = aes128_ctr_byte(key, iv, i);
        assert((x ^ k) ^ k == x) by (bit_vector);
    }
    assert(ctr128_xor(key, iv, ctr128_xor(key, iv, data)) =~= data);
}

/// The ECIES ciphertext of `m` for the recipient key `pk`, with ephemeral
/// secret `e` and symmetric IV `iv`.
pub open spec fn ecies_ciphertext(pk: Seq<u8>, e: Seq<u8>, iv: Seq<u8>, m: Seq<u8>) -> Seq<u8> {
    let z = ecdh_x(e, pk);
    let c = ctr128_xor(ecies_ke(z), iv, m);
    let tag = hmac_sha256_of(ecies_km(z), iv + c);
    pubkey_of(e) + iv + c + tag
}

/// `ct` is an ECIES ciphertext of `m` for `pk`: it was built from some valid
/// ephemeral key and some 16-byte IV, and has the envelope's 113 bytes of
/// overhead.
pub open spec fn is_ecies_ciphertext_of(pk: Seq<u8>, m: Seq<u8>, ct: Seq<u8>) -> bool {
    exists|e: Seq<u8>, iv: Seq<u8>|
        valid_sk(e) && valid_pk(pubkey_of(e)) && iv.len() == 16 && ct == ecies_ciphertext(
            pk,
            e,
            iv,
            m,
        ) && ct.len() == m.len() + 113
}

/// What decrypting `ct` under `sk` yields: too short or an invalid ephemeral
/// key is Malformed; a tag mismatch is AuthFailed; otherwise the AES-CTR
/// decryption of the body.
pub open spec fn ecies_decrypt_spec(sk: Seq<u8>, ct: Seq<u8>) -> Result<Seq<u8>, Error> {
    if ct.len() < 113 {
        Err(Error::Malformed)
    } else if !valid_pk(ct.subrange(0, 65)) {
        Err(Error::Malformed)
    } else {
        let z = ecdh_x(sk, ct.subrange(0, 65));
        let tag = hmac_sha256_of(ecies_km(z), ct.subrange(65, ct.len() - 32));
        if tag != ct.subrange(ct.len() - 32, ct.len() as int) {
            Err(Error::AuthFailed)
        } else {
            Ok(ctr128_xor(ecies_ke(z), ct.subrange(65, 81), ct.subrange(81, ct.len() - 32)))
        }
    }
}

/// The view of an exec decryption result.
pub open spec fn res_view(r: Result<Vec<u8>, Error>) -> Result<Seq<u8>, Error> {
    match r {
        Ok(v) => Ok(v@),
        Err(e) => Err(e),
    }
}

/// A genuine ciphertext is long enough and carries a valid ephemeral key.
proof fn lemma_genuine_shape(pk: Seq<u8>, m: Seq<u8>, ct: Seq<u8>)
    requires
        is_ecies_ciphertext_of(pk, m, ct),
    ensures
        ct.len() == m.len() + 113,
        ct.len() >= 113,
        valid_pk(ct.subrange(0, 65)),
        ct.subrange(0, 65)[0] == 4,
{
    let (e, iv) = choose|e: Seq<u8>, iv: Seq<u8>|
        valid_sk(e) && valid_pk(pubkey_of(e)) && iv.len() == 16 && ct == ecies_ciphertext(
            pk,
            e,
            iv,
            m,
        ) && ct.len() == m.len() + 113;
    assert(pubkey_of(e).len() == 65);
    assert(ct.subrange(0, 65) =~= pubkey_of(e));
}

/// Region arithmetic for a genuine ciphertext, under any `z` that agrees with
/// the peer's ECDH result for its ephemeral key: the stored tag is the tag of
/// the middle region under `z`'s keys, and decrypting the body restores `m`.
proof fn lemma_genuine_decrypt(sk: Seq<u8>, m: Seq<u8>, ct: Seq<u8>, z: Seq<u8>)
    requires
        is_ecies_ciphertext_of(pubkey_of(sk), m, ct),
        dh_agrees(sk, ct.subrange(0, 65), z),
    ensures
        ct.len() == m.len() + 113,
        valid_pk(ct.subrange(0, 65)),
        hmac_sha256_of(ecies_km(z), ct.subrange(65, ct.len() - 32)) == ct.subrange(
            ct.len() - 32,
            ct.len() as int,
        ),
        ctr128_xor(ecies_ke(z), ct.subrange(65, 81), ct.subrange(81, ct.len() - 32)) == m,
{
    lemma_genuine_shape(pubkey_of(sk), m, ct);
    let (e, iv) = choose|e: Seq<u8>, iv: Seq<u8>|
        valid_sk(e) && valid_pk(pubkey_of(e)) && iv.len() == 16 && ct == ecies_ciphertext(
            pubkey_of(sk),
            e,
            iv,
            m,
        ) && ct.len() == m.len() + 113;
    let z0 = ecdh_x(e, pubkey_of(sk));
    let c = ctr128_xor(ecies_ke(z0), iv, m);
    let tag = hmac_sha256_of(ecies_km(z0), iv + c);
    assert(ct.subrange(0, 65) =~= pubkey_of(e));
    assert(z == z0);
    assert(c.len() == m.len());
    assert(tag.len() == 32) by {
        assert(ct == pubkey_of(e) + iv + c + tag);
        assert(ct.len() == 65 + 16 + c.len() + tag.len());
    }
    assert(ct.subrange(65, 81) =~= iv);
    assert(ct.subrange(81, ct.len() - 32) =~= c);
    assert(ct.subrange(65, ct.len() - 32) =~= iv + c);
    assert(ct.subrange(ct.len() - 32, ct.len() as int) =~= tag);
    lemma_ctr128_involutive(ecies_ke(z0), iv, m);
}

/// A ciphertext that matches a genuine one except in its trailing 32 bytes
/// fails the tag comparison under any agreeing `z`.
proof fn lemma_tag_tamper(sk: Seq<u8>, m: Seq<u8>, ct0: Seq<u8>, msg: Seq<u8>, z: Seq<u8>)
    requires
        is_ecies_ciphertext_of(pubkey_of(sk), m, ct0),
        msg.len() == ct0.len(),
        msg != ct0,
        msg.take(msg.len() - 32) == ct0.take(ct0.len() - 32),
        dh_agrees(sk, msg.subrange(0, 65), z),
    ensures
        msg.len() >= 113,
        valid_pk(msg.subrange(0, 65)),
        msg.subrange(0, 65)[0] == 4,
        hmac_sha256_of(ecies_km(z), msg.subrange(65, msg.len() - 32)) != msg.subrange(
            msg.len() - 32,
            msg.len() as int,
        ),
{
    lemma_genuine_shape(pubkey_of(sk), m, ct0);
    assert forall|i: int| 0 <= i < msg.len() - 32 implies msg[i] == ct0[i] by {
        assert(msg.take(msg.len() - 32)[i] == msg[i]);
        assert(ct0.take(ct0.len() - 32)[i] == ct0[i]);
    }
    assert(msg.subrange(0, 65) =~= ct0.subrange(0, 65));
    assert(msg.subrange(65, msg.len() - 32) =~= ct0.subrange(65, ct0.len() - 32));
    lemma_genuine_decrypt(sk, m, ct0, z);
    if hmac_sha256_of(ecies_km(z), msg.subrange(65, msg.len() - 32)) == msg.subrange(
        msg.len() - 32,
        msg.len() as int,
    ) {
        assert(msg.subrange(msg.len() - 32, msg.len() as int) =~= ct0.subrange(
            ct0.len() - 32,
            ct0.len() as int,
        ));
        assert forall|i: int| 0 <= i < msg.len() implies msg[i] == ct0[i] by {
            if i >= msg.len() - 32 {
                assert(msg.subrange(msg.len() - 32, msg.len() as int)[i - (msg.len() - 32)]
                    == msg[i]);
                assert(ct0.subrange(ct0.len() - 32, ct0.len() as int)[i - (ct0.len() - 32)]
                    == ct0[i]);
            }
        }
        assert(msg =~= ct0);
    }
}

/// A per-connection encryption context: the local static secret key and the
/// remote static public key that payloads are encrypted to.
#[derive(Debug, Clone)]
pub struct EncryptionContext {
    /// The local 32-byte secret key.
    pub privkey: Vec<u8>,
    /// The remote 65-byte uncompressed public key.
    pub pubkey: Vec<u8>,
}

impl EncryptionContext {
    /// Both keys are well formed.
    pub open spec fn wf(&self) -> bool {
        valid_sk(self.privkey@) && valid_pk(self.pubkey@)
    }

    /// A context over the given keys; rejects an invalid scalar or point.
    pub fn new(privkey: Vec<u8>, pubkey: Vec<u8>) -> (r: Result<EncryptionContext, Error>)
        ensures
            r is Ok <==> (valid_sk(privkey@) && valid_pk(pubkey@)),
            r matches Ok(cx) ==> cx.wf() && cx.privkey@ == privkey@ && cx.pubkey@ == pubkey@,
    {
        if privkey.len() != 32 {
            return Err(Error::Malformed);
        }
        if !secret_key_ok(&privkey) {
            return Err(Error::Malformed);
        }
        if pubkey.len() != 65 {
            return Err(Error::Malformed);
        }
        if pubkey[0] != 4 {
            return Err(Error::Malformed);
        }
        if !public_key_ok(&pubkey) {
            return Err(Error::Malformed);
        }
        Ok(EncryptionContext { privkey, pubkey })
    }

    /// The derived key pair of a shared secret: the AES key and the tag key.
    fn derive_keys(z: &Vec<u8>) -> (r: (Vec<u8>, Vec<u8>))
        ensures
            r.0@ == ecies_ke(z@),
            r.0@.len() == 16,
            r.1@ == ecies_km(z@),
            r.1@.len() == 32,
    {
        let kdf = Sha256Kdf;
        let empty: Vec<u8> = Vec::new();
        let k = kdf.concat_kdf(z, &empty, 32);
        let ke = subvec(&k, 0, 16);
        let km_raw = subvec(&k, 16, 32);
        let km = sha256(&km_raw);
        proof {
            assert(empty@ =~= Seq::<u8>::empty());
            assert(ke@ =~= concat_kdf_spec(z@, Seq::empty(), 32).take(16));
            assert(km_raw@ =~= concat_kdf_spec(z@, Seq::empty(), 32).skip(16));
        }
        (ke, km)
    }

    /// AES-128-CTR under a fresh random IV; returns `IV ∥ ciphertext`.
    fn sym_encrypt(&self, key: &Vec<u8>, msg: &Vec<u8>) -> (r: Vec<u8>)
        requires
            key@.len() == 16,
            msg@.len() + 16 <= usize::MAX,
        ensures
            r@.len() == 16 + msg@.len(),
            exists|iv: Seq<u8>|
                iv.len() == 16 && r@ == iv + ctr128_xor(key@, iv, msg@),
    {
        let iv = random_bytes(16);
        let ct = aes128_ctr(key, &iv, msg);
        let ghost ivg = iv@;
        let mut result = iv;
        append_bytes(&mut result, &ct);
        proof {
            assert(ct@ =~= ctr128_xor(key@, ivg, msg@));
            assert(ivg.len() == 16 && result@ == ivg + ctr128_xor(key@, ivg, msg@));
        }
        result
    }

    /// AES-128-CTR decryption of `IV ∥ ciphertext`.
    fn sym_decrypt(&self, key: &Vec<u8>, ciphertext: &Vec<u8>) -> (r: Vec<u8>)
        requires
            key@.len() == 16,
            ciphertext@.len() >= 16,
        ensures
            r@ == ctr128_xor(key@, ciphertext@.take(16), ciphertext@.skip(16)),
    {
        let iv = subvec(ciphertext, 0, 16);
        let body = subvec(ciphertext, 16, ciphertext.len());
        let out = aes128_ctr(key, &iv, &body);
        proof {
            assert(iv@ =~= ciphertext@.take(16));
            assert(body@ =~= ciphertext@.skip(16));
            assert(out@ =~= ctr128_xor(key@, ciphertext@.take(16), ciphertext@.skip(16)));
        }
        out
    }

    /// ECIES encryption of `msg` to the context's remote public key. The
    /// result is 113 bytes longer than the message and is a genuine
    /// ciphertext of it; an error can arise only from the random source.
    pub fn encrypt(&self, msg: &Vec<u8>) -> (r: Result<Vec<u8>, Error>)
        requires
            self.wf(),
            msg@.len() + 113 <= usize::MAX,
        ensures
            r matches Ok(ct) ==> ct@.len() == msg@.len() + 113 && is_ecies_ciphertext_of(
                self.pubkey@,
                msg@,
                ct@,
            ),
            r is Err ==> r == Err::<Vec<u8>, Error>(Error::Crypto),
    {
        let (esk, epk) = match generate_keypair() {
            Ok(kp) => kp,
            Err(_) => return Err(Error::Crypto),
        };
        let z = match ecdh(&esk, &self.pubkey) {
            Ok(z) => z,
            Err(_) => return Err(Error::Crypto),
        };
        let (ke, km) = Self::derive_keys(&z);
        let ivct = self.sym_encrypt(&ke, msg);
        let tag = hmac_sha256(&km, &ivct);
        let ghost epkv = epk@;
        let mut result = epk;
        append_bytes(&mut result, &ivct);
        append_bytes(&mut result, &tag);
        proof {
            let iv = choose|iv: Seq<u8>|
                iv.len() == 16 && ivct@ == iv + ctr128_xor(ke@, iv, msg@);
            let c = ctr128_xor(ecies_ke(z@), iv, msg@);
            assert(c == ctr128_xor(ke@, iv, msg@));
            assert(result@ =~= epkv + (iv + c) + tag@);
            assert(result@ =~= pubkey_of(esk@) + iv + c + hmac_sha256_of(
                ecies_km(z@),
                iv + c,
            ));
            assert(result@ == ecies_ciphertext(self.pubkey@, esk@, iv, msg@));
            assert(result@.len() == msg@.len() + 113);
            assert(valid_sk(esk@) && valid_pk(pubkey_of(esk@)) && iv.len() == 16);
            assert(is_ecies_ciphertext_of(self.pubkey@, msg@, result@));
        }
        Ok(result)
    }

    /// ECIES decryption with the context's secret key. The result is exactly
    /// what `ecies_decrypt_spec` states; in particular every genuine
    /// ciphertext for this context's own public key decrypts to its
    /// plaintext, and a genuine ciphertext whose trailing 32 tag bytes were
    /// altered — and nothing else — is rejected as AuthFailed.
    pub fn decrypt(&self, msg: &Vec<u8>) -> (r: Result<Vec<u8>, Error>)
        requires
            self.wf(),
        ensures
            res_view(r) == ecies_decrypt_spec(self.privkey@, msg@),
            forall|m: Seq<u8>|
                is_ecies_ciphertext_of(pubkey_of(self.privkey@), m, msg@) ==> res_view(r)
                    == Ok::<Seq<u8>, Error>(m),
            forall|m: Seq<u8>, ct0: Seq<u8>|
                (is_ecies_ciphertext_of(pubkey_of(self.privkey@), m, ct0) && msg@.len()
                    == ct0.len() && msg@ != ct0 && msg@.take(msg@.len() - 32) == ct0.take(
                    ct0.len() - 32,
                )) ==> r == Err::<Vec<u8>, Error>(Error::AuthFailed),
    {
        let ghost sk = self.privkey@;
        if msg.len() < 113 {
            proof {
                assert forall|m: Seq<u8>|
                    is_ecies_ciphertext_of(pubkey_of(sk), m, msg@) implies false by {
                    lemma_genuine_shape(pubkey_of(sk), m, msg@);
                }
                assert forall|m: Seq<u8>, ct0: Seq<u8>|
                    (is_ecies_ciphertext_of(pubkey_of(sk), m, ct0) && msg@.len() == ct0.len()
                        && msg@ != ct0 && msg@.take(msg@.len() - 32) == ct0.take(
                        ct0.len() - 32,
                    )) implies false by {
                    lemma_genuine_shape(pubkey_of(sk), m, ct0);
                }
            }
            return Err(Error::Malformed);
        }
        let epk = subvec(msg, 0, 65);
        proof {
            assert(epk@ =~= msg@.subrange(0, 65));
        }
        let bad_key = epk[0] != 4 || !public_key_ok(&epk);
        if bad_key {
            proof {
                assert(!valid_pk(msg@.subrange(0, 65)));
                assert forall|m: Seq<u8>|
                    is_ecies_ciphertext_of(pubkey_of(sk), m, msg@) implies false by {
                    lemma_genuine_shape(pubkey_of(sk), m, msg@);
                }
                assert forall|m: Seq<u8>, ct0: Seq<u8>|
                    (is_ecies_ciphertext_of(pubkey_of(sk), m, ct0) && msg@.len() == ct0.len()
                        && msg@ != ct0 && msg@.take(msg@.len() - 32) == ct0.take(
                        ct0.len() - 32,
                    )) implies false by {
                    lemma_genuine_shape(pubkey_of(sk), m, ct0);
                    assert(msg@.subrange(0, 65) =~= ct0.subrange(0, 65));
                }
            }
            return Err(Error::Malformed);
        }
        let z = match ecdh(&self.privkey, &epk) {
            Ok(z) => z,
            Err(_) => {
                return Err(Error::Crypto);
            },
        };
        let (ke, km) = Self::derive_keys(&z);
        let ivc = subvec(msg, 65, msg.len() - 32);
        let tag = hmac_sha256(&km, &ivc);
        let msgtag = subvec(msg, msg.len() - 32, msg.len());
        proof {
            assert(ivc@ =~= msg@.subrange(65, msg@.len() - 32));
            assert(msgtag@ =~= msg@.subrange(msg@.len() - 32, msg@.len() as int));
        }
        if !ct_eq(&tag, &msgtag) {
            proof {
                assert forall|m: Seq<u8>|
                    is_ecies_ciphertext_of(pubkey_of(sk), m, msg@) implies false by {
                    lemma_genuine_decrypt(sk, m, msg@, z@);
                }
            }
            return Err(Error::AuthFailed);
        }
        let pt = self.sym_decrypt(&ke, &ivc);
        proof {
            assert(ivc@.take(16) =~= msg@.subrange(65, 81));
            assert(ivc@.skip(16) =~= msg@.subrange(81, msg@.len() - 32));
            assert forall|m: Seq<u8>|
                is_ecies_ciphertext_of(pubkey_of(sk), m, msg@) implies pt@ == m by {
                lemma_genuine_decrypt(sk, m, msg@, z@);
            }
            assert forall|m: Seq<u8>, ct0: Seq<u8>|
                (is_ecies_ciphertext_of(pubkey_of(sk), m, ct0) && msg@.len() == ct0.len()
                    && msg@ != ct0 && msg@.take(msg@.len() - 32) == ct0.take(
                    ct0.len() - 32,
                )) implies false by {
                lemma_tag_tamper(sk, m, ct0, msg@, z@);
            }
        }
        Ok(pt)
    }
}

} // verus!
