//! The initiator side of the RLPx handshake: composing the auth message,
//! decoding the responder's ack, and deriving the session secrets and the
//! seeds of the two MAC sponges.

use vstd::prelude::*;

use crate::bytes::append_bytes;
use crate::bytes::concat_bytes;
use crate::bytes::subvec;
use crate::bytes::xor_bytes;
use crate::bytes::xor_seq;
use crate::crypto::derive_public_key;
use crate::crypto::ecdh;
use crate::crypto::ecdh_x;
use crate::crypto::generate_keypair;
use crate::crypto::keccak256;
use crate::crypto::keccak256_of;
use crate::crypto::public_key_ok;
use crate::crypto::pubkey_of;
use crate::crypto::random_bytes;
use crate::crypto::recid_of;
use crate::crypto::sig_of;
use crate::crypto::sign_recoverable;
use crate::crypto::valid_pk;
use crate::crypto::valid_sk;
use crate::crypto::Sponge;
use crate::ecies::ecies_decrypt_spec;
use crate::ecies::is_ecies_ciphertext_of;
use crate::ecies::EncryptionContext;
use crate::Error;

verus! {

/// The hash of the two nonces: the responder's nonce first.
pub open spec fn nonce_hash(resp_nonce: Seq<u8>, init_nonce: Seq<u8>) -> Seq<u8> {
    keccak256_of(resp_nonce + init_nonce)
}

/// `shared_secret = keccak256(ephemeral ∥ keccak256(resp_nonce ∥ init_nonce))`.
pub open spec fn shared_secret_of(eph: Seq<u8>, resp_nonce: Seq<u8>, init_nonce: Seq<u8>) -> Seq<
    u8,
> {
    keccak256_of(eph + nonce_hash(resp_nonce, init_nonce))
}

/// `aes_secret = keccak256(ephemeral ∥ shared_secret)`.
pub open spec fn aes_secret_of(eph: Seq<u8>, resp_nonce: Seq<u8>, init_nonce: Seq<u8>) -> Seq<u8> {
    keccak256_of(eph + shared_secret_of(eph, resp_nonce, init_nonce))
}

/// `mac_secret = keccak256(ephemeral ∥ aes_secret)`.
pub open spec fn mac_secret_of(eph: Seq<u8>, resp_nonce: Seq<u8>, init_nonce: Seq<u8>) -> Seq<u8> {
    keccak256_of(eph + aes_secret_of(eph, resp_nonce, init_nonce))
}

/// `token = keccak256(shared_secret)`.
pub open spec fn token_of(eph: Seq<u8>, resp_nonce: Seq<u8>, init_nonce: Seq<u8>) -> Seq<u8> {
    keccak256_of(shared_secret_of(eph, resp_nonce, init_nonce))
}

/// The egress sponge transcript: the MAC secret XOR-ed with the peer's nonce,
/// then the handshake ciphertext this side sent.
pub open spec fn egress_seed(mac: Seq<u8>, peer_nonce: Seq<u8>, sent: Seq<u8>) -> Seq<u8> {
    xor_seq(mac, peer_nonce) + sent
}

/// The ingress sponge transcript: the MAC secret XOR-ed with this side's own
/// nonce, then the handshake ciphertext this side received.
pub open spec fn ingress_seed(mac: Seq<u8>, own_nonce: Seq<u8>, recv: Seq<u8>) -> Seq<u8> {
    xor_seq(mac, own_nonce) + recv
}

/// The derived state of a session, as plain byte strings: the three secrets
/// and the transcripts the two sponges are seeded with.
pub ghost struct SecretsModel {
    pub aes: Seq<u8>,
    pub mac: Seq<u8>,
    pub token: Seq<u8>,
    pub egress: Seq<u8>,
    pub ingress: Seq<u8>,
}

/// What the initiator derives, from its own nonce, the responder's nonce,
/// and the two handshake ciphertexts (`sent` = auth, `recv` = ack).
pub open spec fn initiator_secrets(
    eph: Seq<u8>,
    own_nonce: Seq<u8>,
    remote_nonce: Seq<u8>,
    sent: Seq<u8>,
    recv: Seq<u8>,
) -> SecretsModel {
    let mac = mac_secret_of(eph, remote_nonce, own_nonce);
    SecretsModel {
        aes: aes_secret_of(eph, remote_nonce, own_nonce),
        mac: mac,
        token: token_of(eph, remote_nonce, own_nonce),
        egress: egress_seed(mac, remote_nonce, sent),
        ingress: ingress_seed(mac, own_nonce, recv),
    }
}

/// What the responder derives: its own nonce comes first in the nonce hash,
/// and its sent and received ciphertexts are the ack and the auth.
pub open spec fn responder_secrets(
    eph: Seq<u8>,
    own_nonce: Seq<u8>,
    remote_nonce: Seq<u8>,
    sent: Seq<u8>,
    recv: Seq<u8>,
) -> SecretsModel {
    let mac = mac_secret_of(eph, own_nonce, remote_nonce);
    SecretsModel {
        aes: aes_secret_of(eph, own_nonce, remote_nonce),
        mac: mac,
        token: token_of(eph, own_nonce, remote_nonce),
        egress: egress_seed(mac, remote_nonce, sent),
        ingress: ingress_seed(mac, own_nonce, recv),
    }
}

/// Law: two endpoints that agree on the ephemeral ECDH result, the two
/// nonces, and the two handshake ciphertexts derive identical secrets, and
/// each side's egress sponge transcript is the peer's ingress transcript.
pub proof fn lemma_handshake_pairing(
    eph: Seq<u8>,
    init_nonce: Seq<u8>,
    resp_nonce: Seq<u8>,
    auth: Seq<u8>,
    ack: Seq<u8>,
)
    ensures
        ({
            let i = initiator_secrets(eph, init_nonce, resp_nonce, auth, ack);
            let r = responder_secrets(eph, resp_nonce, init_nonce, ack, auth);
            i.aes == r.aes && i.mac == r.mac && i.token == r.token && i.egress == r.ingress
                && i.ingress == r.egress
        }),
{
}

/// The per-connection handshake state of the initiator.
#[derive(Debug, Clone)]
pub struct RlpxContext {
    /// The encryption context: local static secret key, remote static public key.
    pub context: EncryptionContext,
    /// The local static public key, 65 bytes uncompressed.
    pub pubkey: Vec<u8>,
    /// The ephemeral secret key of this handshake.
    pub randprivkey: Vec<u8>,
    /// The ephemeral public key of this handshake, 65 bytes uncompressed.
    pub randpubkey: Vec<u8>,
    /// The initiator nonce, 32 random bytes.
    pub nonce: Vec<u8>,
}

/// The 194-byte auth plaintext: the recoverable signature of
/// `shared_static XOR nonce` under the ephemeral key, the recovery id, the
/// hash of the ephemeral public key sans tag, the static public key sans tag,
/// the nonce, and a zero token flag.
pub open spec fn auth_plaintext(cx: RlpxContext) -> Seq<u8> {
    let shared = ecdh_x(cx.context.privkey@, cx.context.pubkey@);
    let digest = xor_seq(shared, cx.nonce@);
    sig_of(cx.randprivkey@, digest) + seq![recid_of(cx.randprivkey@, digest)] + keccak256_of(
        cx.randpubkey@.skip(1),
    ) + cx.pubkey@.skip(1) + cx.nonce@ + seq![0u8]
}

/// What decoding the ack `msg` yields: the ECIES decryption (its errors pass
/// through), then the 97-byte plaintext is split into the responder's
/// ephemeral public key, its nonce, and the token flag, and the secrets are
/// derived from the ephemeral ECDH result and the two nonces.
pub open spec fn decode_spec(cx: RlpxContext, msg: Seq<u8>, auth_sent: Seq<u8>) -> Result<
    SecretsModel,
    Error,
> {
    match ecies_decrypt_spec(cx.context.privkey@, msg) {
        Result::Err(e) => Err(e),
        Result::Ok(p) => {
            if p.len() != 97 {
                Err(Error::Malformed)
            } else {
                let rpk = seq![4u8] + p.subrange(0, 64);
                if !valid_pk(rpk) {
                    Err(Error::Malformed)
                } else if p[96] != 0 {
                    Err(Error::Malformed)
                } else {
                    Ok(
                        initiator_secrets(
                            ecdh_x(cx.randprivkey@, rpk),
                            cx.nonce@,
                            p.subrange(64, 96),
                            auth_sent,
                            msg,
                        ),
                    )
                }
            }
        },
    }
}

/// The derived session secrets, with the two seeded MAC sponges.
#[derive(Debug, Clone, PartialEq, Eq)]
pub struct RlpxSecrets {
    /// The 32-byte AES-256-CTR key of the frame codec.
    pub aes_secret: Vec<u8>,
    /// The 32-byte AES key of the MAC update step.
    pub mac: Vec<u8>,
    /// The 32-byte session-resumption token; opaque to the codec.
    pub token: Vec<u8>,
    /// The sponge that authenticates outbound frames.
    pub egress_mac: Sponge,
    /// The sponge that authenticates inbound frames.
    pub ingress_mac: Sponge,
}

impl View for RlpxSecrets {
    type V = SecretsModel;

    open spec fn view(&self) -> SecretsModel {
        SecretsModel {
            aes: self.aes_secret@,
            mac: self.mac@,
            token: self.token@,
            egress: self.egress_mac@,
            ingress: self.ingress_mac@,
        }
    }
}

impl RlpxContext {
    /// The keys are well formed and both nonce and keys have their wire sizes.
    pub open spec fn wf(&self) -> bool {
        self.context.wf() && valid_sk(self.randprivkey@) && self.randpubkey@.len() == 65
            && self.pubkey@.len() == 65 && self.nonce@.len() == 32
    }

    /// Fresh handshake state over an encryption context: derives the local
    /// static public key and draws an ephemeral keypair and a 32-byte nonce.
    pub fn new(context: EncryptionContext) -> (r: Result<RlpxContext, Error>)
        requires
            context.wf(),
        ensures
            r matches Ok(cx) ==> cx.wf() && cx.context == context && cx.pubkey@ == pubkey_of(
                context.privkey@,
            ) && cx.randpubkey@ == pubkey_of(cx.randprivkey@) && valid_pk(cx.randpubkey@),
            r is Err ==> r == Err::<RlpxContext, Error>(Error::Crypto),
    {
        let (randprivkey, randpubkey) = match generate_keypair() {
            Ok(kp) => kp,
            Err(_) => return Err(Error::Crypto),
        };
        let pubkey = match derive_public_key(&context.privkey) {
            Ok(p) => p,
            Err(_) => return Err(Error::Crypto),
        };
        let nonce = random_bytes(32);
        Ok(RlpxContext { context, pubkey, randprivkey, randpubkey, nonce })
    }

    /// The auth message: the 194-byte plaintext of `auth_plaintext`,
    /// ECIES-encrypted to the remote static key — 307 bytes on the wire.
    pub fn handshake(&self) -> (r: Result<Vec<u8>, Error>)
        requires
            self.wf(),
        ensures
            r matches Ok(ct) ==> ct@.len() == 307 && is_ecies_ciphertext_of(
                self.context.pubkey@,
                auth_plaintext(*self),
                ct@,
            ),
            r is Err ==> r == Err::<Vec<u8>, Error>(Error::Crypto),
    {
        let shared = match ecdh(&self.context.privkey, &self.context.pubkey) {
            Ok(s) => s,
            Err(_) => return Err(Error::Crypto),
        };
        let signed = xor_bytes(&shared, &self.nonce);
        let (sig, recid) = match sign_recoverable(&self.randprivkey, &signed) {
            Ok(t) => t,
            Err(_) => return Err(Error::Crypto),
        };
        let randpub_tail = subvec(&self.randpubkey, 1, self.randpubkey.len());
        let randpubsha = keccak256(&randpub_tail);
        let pub_tail = subvec(&self.pubkey, 1, self.pubkey.len());
        let ghost sigv = sig@;
        let mut msg = sig;
        msg.push(recid);
        append_bytes(&mut msg, &randpubsha);
        append_bytes(&mut msg, &pub_tail);
        append_bytes(&mut msg, &self.nonce);
        msg.push(0u8);
        proof {
            assert(randpub_tail@ =~= self.randpubkey@.skip(1));
            assert(pub_tail@ =~= self.pubkey@.skip(1));
            assert(msg@ =~= auth_plaintext(*self));
            assert(msg@.len() == 194);
        }
        let ct = match self.context.encrypt(&msg) {
            Ok(ct) => ct,
            Err(e) => return Err(e),
        };
        Ok(ct)
    }

    /// Decodes the responder's 210-byte ack ciphertext and derives the
    /// session secrets; `auth_sent` is the auth ciphertext this side wrote,
    /// which seeds the egress sponge. The result is exactly `decode_spec`.
    pub fn auth_handshake_decode(&self, msg: &Vec<u8>, auth_sent: &Vec<u8>) -> (r: Result<
        RlpxSecrets,
        Error,
    >)
        requires
            self.wf(),
        ensures
            r matches Ok(s) ==> decode_spec(*self, msg@, auth_sent@) == Ok::<SecretsModel, Error>(
                s@,
            ) && s.aes_secret@.len() == 32 && s.mac@.len() == 32 && s.token@.len() == 32,
            r matches Err(e) ==> decode_spec(*self, msg@, auth_sent@) == Err::<
                SecretsModel,
                Error,
            >(e),
    {
        let authresp = match self.context.decrypt(msg) {
            Ok(p) => p,
            Err(e) => return Err(e),
        };
        if authresp.len() != 97 {
            return Err(Error::Malformed);
        }
        let mut key: Vec<u8> = Vec::new();
        key.push(4u8);
        let rpk_raw = subvec(&authresp, 0, 64);
        append_bytes(&mut key, &rpk_raw);
        proof {
            assert(key@ =~= seq![4u8] + authresp@.subrange(0, 64));
            assert(key@[0] == 4);
            assert(key@.len() == 65);
        }
        if !public_key_ok(&key) {
            return Err(Error::Malformed);
        }
        let remotenonce = subvec(&authresp, 64, 96);
        if authresp[96] != 0 {
            return Err(Error::Malformed);
        }
        let eph = match ecdh(&self.randprivkey, &key) {
            Ok(x) => x,
            Err(_) => return Err(Error::Crypto),
        };
        let shared_tmp = keccak256(&concat_bytes(&remotenonce, &self.nonce));
        let shared_secret = keccak256(&concat_bytes(&eph, &shared_tmp));
        let aes_secret = keccak256(&concat_bytes(&eph, &shared_secret));
        let mac = keccak256(&concat_bytes(&eph, &aes_secret));
        let token = keccak256(&shared_secret);
        let mut egress_mac = Sponge::new();
        egress_mac.absorb(&xor_bytes(&mac, &remotenonce));
        egress_mac.absorb(auth_sent);
        let mut ingress_mac = Sponge::new();
        ingress_mac.absorb(&xor_bytes(&mac, &self.nonce));
        ingress_mac.absorb(msg);
        let secrets = RlpxSecrets { aes_secret, mac, token, egress_mac, ingress_mac };
        proof {
            let p = authresp@;
            let rpk = seq![4u8] + p.subrange(0, 64);
            assert(key@ == rpk);
            assert(remotenonce@ =~= p.subrange(64, 96));
            let e = ecdh_x(self.randprivkey@, rpk);
            assert(shared_tmp@ == nonce_hash(remotenonce@, self.nonce@));
            assert(shared_secret@ == shared_secret_of(e, remotenonce@, self.nonce@));
            assert(secrets@.aes == aes_secret_of(e, remotenonce@, self.nonce@));
            assert(secrets@.mac == mac_secret_of(e, remotenonce@, self.nonce@));
            assert(secrets@.token == token_of(e, remotenonce@, self.nonce@));
            assert(secrets@.egress =~= egress_seed(secrets@.mac, remotenonce@, auth_sent@));
            assert(secrets@.ingress =~= ingress_seed(secrets@.mac, self.nonce@, msg@));
        }
        Ok(secrets)
    }
}

} // verus!
