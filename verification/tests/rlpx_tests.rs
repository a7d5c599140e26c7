use rlpx::crypto::Sponge;
use rlpx::ecies::EncryptionContext;
use rlpx::rlpx::RlpxContext;
use rlpx::Error;
use sha3::Digest;
use sha3::Keccak256;

fn keypair(sk_byte: u8) -> (Vec<u8>, Vec<u8>) {
    let sk_bytes = [sk_byte; 32];
    let sk = secp256k1::SecretKey::from_secret_bytes(sk_bytes).unwrap();
    let pk = secp256k1::PublicKey::from_secret_key(&sk);
    (sk_bytes.to_vec(), pk.serialize_uncompressed().to_vec())
}

/// A pinned initiator: static key 0x11.., remote static key 0x22..,
/// ephemeral key `eph_byte`.., nonce `nonce_byte`...
fn pinned_initiator(eph_byte: u8, nonce_byte: u8) -> RlpxContext {
    let (sk_i, pk_i) = keypair(0x11);
    let (_sk_r, pk_r) = keypair(0x22);
    let (rand_sk, rand_pk) = keypair(eph_byte);
    RlpxContext {
        context: EncryptionContext::new(sk_i, pk_r).unwrap(),
        pubkey: pk_i,
        randprivkey: rand_sk,
        randpubkey: rand_pk,
        nonce: vec![nonce_byte; 32],
    }
}

fn keccak(parts: &[&[u8]]) -> Vec<u8> {
    let mut h = Keccak256::new();
    for p in parts {
        h.update(p);
    }
    h.finalize().to_vec()
}

fn xor32(a: &[u8], b: &[u8]) -> Vec<u8> {
    (0..32).map(|i| a[i] ^ b[i]).collect()
}

/// Builds the responder's 210-byte ack to the pinned initiator: its own
/// ephemeral public key, its nonce, and a zero token flag, encrypted to the
/// initiator's static key.
fn responder_ack(initiator: &RlpxContext, resp_eph: u8, resp_nonce: u8) -> Vec<u8> {
    let (_resp_eph_sk, resp_eph_pk) = keypair(resp_eph);
    let mut plain = resp_eph_pk[1..].to_vec();
    plain.extend_from_slice(&vec![resp_nonce; 32]);
    plain.push(0);
    assert_eq!(plain.len(), 97);
    // Any valid sender key will do; the envelope only needs the recipient key.
    let (sk_any, _) = keypair(0x77);
    let to_initiator = EncryptionContext::new(sk_any, initiator.pubkey.clone()).unwrap();
    let ack = to_initiator.encrypt(&plain).unwrap();
    assert_eq!(ack.len(), 210);
    ack
}

#[test]
fn handshake_auth_is_307_bytes_with_correct_layout() {
    let initiator = pinned_initiator(0x33, 0x44);
    let auth = initiator.handshake().unwrap();
    assert_eq!(auth.len(), 307);

    // The remote static holder can decrypt it and check the 194-byte layout.
    let (sk_r, pk_r) = keypair(0x22);
    let remote = EncryptionContext::new(sk_r.clone(), pk_r).unwrap();
    let plain = remote.decrypt(&auth).unwrap();
    assert_eq!(plain.len(), 194);
    assert!(plain[64] == 0 || plain[64] == 1);
    assert_eq!(&plain[65..97], keccak(&[&initiator.randpubkey[1..]]).as_slice());
    assert_eq!(&plain[97..161], &initiator.pubkey[1..]);
    assert_eq!(&plain[161..193], &vec![0x44u8; 32][..]);
    assert_eq!(plain[193], 0);

    // The signature is by the ephemeral key over shared_static XOR nonce.
    let sk_i = secp256k1::SecretKey::from_secret_bytes([0x11u8; 32]).unwrap();
    let pk_r_point = secp256k1::PublicKey::from_secret_key(
        &secp256k1::SecretKey::from_secret_bytes([0x22u8; 32]).unwrap(),
    );
    let shared = secp256k1::ecdh::shared_secret_point(&pk_r_point, &sk_i);
    let digest = xor32(&shared[..32], &initiator.nonce);
    let recid = secp256k1::ecdsa::RecoveryId::try_from(plain[64] as i32).unwrap();
    let sig = secp256k1::ecdsa::RecoverableSignature::from_compact(&plain[..64], recid).unwrap();
    let msg = secp256k1::Message::from_digest(<[u8; 32]>::try_from(digest.as_slice()).unwrap());
    let recovered = sig.recover_ecdsa(msg).unwrap();
    assert_eq!(
        recovered.serialize_uncompressed().to_vec(),
        initiator.randpubkey
    );
}

#[test]
fn handshake_pairing_derives_identical_secrets() {
    let initiator = pinned_initiator(0x33, 0x44);
    let auth = initiator.handshake().unwrap();
    let ack = responder_ack(&initiator, 0x55, 0x66);
    let secrets = initiator.auth_handshake_decode(&ack, &auth).unwrap();

    // The responder computes the same secrets from its own side.
    let resp_eph_sk = secp256k1::SecretKey::from_secret_bytes([0x55u8; 32]).unwrap();
    let init_eph_pk = secp256k1::PublicKey::from_slice(&initiator.randpubkey).unwrap();
    let xy = secp256k1::ecdh::shared_secret_point(&init_eph_pk, &resp_eph_sk);
    let eph = &xy[..32];
    let init_nonce = vec![0x44u8; 32];
    let resp_nonce = vec![0x66u8; 32];

    let nonce_hash = keccak(&[&resp_nonce, &init_nonce]);
    let shared_secret = keccak(&[eph, &nonce_hash]);
    let aes_secret = keccak(&[eph, &shared_secret]);
    let mac_secret = keccak(&[eph, &aes_secret]);
    let token = keccak(&[&shared_secret]);

    assert_eq!(secrets.aes_secret, aes_secret);
    assert_eq!(secrets.mac, mac_secret);
    assert_eq!(secrets.token, token);

    // The responder's ingress sponge is seeded like the initiator's egress
    // sponge, and vice versa.
    let mut resp_ingress = Sponge::new();
    resp_ingress.absorb(&xor32(&mac_secret, &resp_nonce));
    resp_ingress.absorb(&auth);
    assert_eq!(secrets.egress_mac, resp_ingress);

    let mut resp_egress = Sponge::new();
    resp_egress.absorb(&xor32(&mac_secret, &init_nonce));
    resp_egress.absorb(&ack);
    assert_eq!(secrets.ingress_mac, resp_egress);
}

#[test]
fn decode_rejects_tampered_ack() {
    let initiator = pinned_initiator(0x33, 0x44);
    let auth = initiator.handshake().unwrap();
    let mut ack = responder_ack(&initiator, 0x55, 0x66);
    let last = ack.len() - 1;
    ack[last] ^= 1;
    assert_eq!(
        initiator.auth_handshake_decode(&ack, &auth).unwrap_err(),
        Error::AuthFailed
    );
}

#[test]
fn decode_rejects_wrong_plaintext_length() {
    let initiator = pinned_initiator(0x33, 0x44);
    let auth = initiator.handshake().unwrap();
    let (sk_any, _) = keypair(0x77);
    let to_initiator = EncryptionContext::new(sk_any, initiator.pubkey.clone()).unwrap();
    let ack = to_initiator.encrypt(&vec![0u8; 96]).unwrap();
    assert_eq!(
        initiator.auth_handshake_decode(&ack, &auth).unwrap_err(),
        Error::Malformed
    );
}

#[test]
fn decode_rejects_nonzero_token_flag() {
    let initiator = pinned_initiator(0x33, 0x44);
    let auth = initiator.handshake().unwrap();
    let (_eph_sk, eph_pk) = keypair(0x55);
    let mut plain = eph_pk[1..].to_vec();
    plain.extend_from_slice(&vec![0x66u8; 32]);
    plain.push(1);
    let (sk_any, _) = keypair(0x77);
    let to_initiator = EncryptionContext::new(sk_any, initiator.pubkey.clone()).unwrap();
    let ack = to_initiator.encrypt(&plain).unwrap();
    assert_eq!(
        initiator.auth_handshake_decode(&ack, &auth).unwrap_err(),
        Error::Malformed
    );
}

#[test]
fn decode_rejects_invalid_remote_ephemeral_key() {
    let initiator = pinned_initiator(0x33, 0x44);
    let auth = initiator.handshake().unwrap();
    let mut plain = vec![0u8; 64];
    plain.extend_from_slice(&vec![0x66u8; 32]);
    plain.push(0);
    let (sk_any, _) = keypair(0x77);
    let to_initiator = EncryptionContext::new(sk_any, initiator.pubkey.clone()).unwrap();
    let ack = to_initiator.encrypt(&plain).unwrap();
    assert_eq!(
        initiator.auth_handshake_decode(&ack, &auth).unwrap_err(),
        Error::Malformed
    );
}

#[test]
fn rlpx_new_derives_matching_keys() {
    let (sk_i, pk_i) = keypair(0x11);
    let (_sk_r, pk_r) = keypair(0x22);
    let cx = RlpxContext::new(EncryptionContext::new(sk_i, pk_r).unwrap()).unwrap();
    assert_eq!(cx.pubkey, pk_i);
    assert_eq!(cx.nonce.len(), 32);
    let rand_sk = secp256k1::SecretKey::from_secret_bytes(
        <[u8; 32]>::try_from(cx.randprivkey.as_slice()).unwrap(),
    ).unwrap();
    let rand_pk = secp256k1::PublicKey::from_secret_key(&rand_sk);
    assert_eq!(cx.randpubkey, rand_pk.serialize_uncompressed().to_vec());
}
