//! The post-handshake frame codec: each frame is
//! `enc_header(16) ∥ header_mac(16) ∥ enc_body(ceil16) ∥ body_mac(16)`.
//! Header and body travel on a single AES-256-CTR stream per direction, and
//! each direction's Keccak sponge authenticates them with the
//! XOR-then-encrypt update rule.

use vstd::prelude::*;

use crate::bytes::append_bytes;
use crate::bytes::be24_bytes;
use crate::bytes::be24_val;
use crate::bytes::bytes_to_u24;
use crate::bytes::lemma_be24_round_trip;
use crate::bytes::subvec;
use crate::bytes::u24_to_bytes;
use crate::bytes::xor_bytes;
use crate::bytes::xor_seq;
use crate::bytes::zero_bytes;
use crate::crypto::aes256_block_of;
use crate::crypto::aes256_ctr_at;
use crate::crypto::aes256_ctr_byte;
use crate::crypto::aes256_encrypt_block;
use crate::crypto::ct_eq;
use crate::crypto::keccak256_of;
use crate::crypto::Sponge;
use crate::ecies::res_view;
use crate::rlpx::RlpxSecrets;
use crate::Error;

verus! {

/// Sixteen zero bytes: the fixed IV of both frame CTR streams.
pub open spec fn zero_iv() -> Seq<u8> {
    Seq::new(16, |i: int| 0u8)
}

/// The first 16 digest bytes of a sponge transcript.
pub open spec fn digest16(sp: Seq<u8>) -> Seq<u8> {
    Seq::new(16, |i: int| keccak256_of(sp)[i])
}

/// The single-block AES-256 encryption, as exactly 16 bytes.
pub open spec fn block16(key: Seq<u8>, b: Seq<u8>) -> Seq<u8> {
    Seq::new(16, |i: int| aes256_block_of(key, b)[i])
}

/// `data` XOR-ed with the AES-256-CTR keystream from stream position `pos`.
pub open spec fn ctr256_xor(key: Seq<u8>, pos: int, data: Seq<u8>) -> Seq<u8> {
    Seq::new(data.len(), |i: int| data[i] ^ aes256_ctr_byte(key, zero_iv(), pos + i))
}

/// Applying the keystream twice at the same position restores the data.
pub proof fn lemma_ctr256_involutive(key: Seq<u8>, pos: int, data: Seq<u8>)
    ensures
        ctr256_xor(key, pos, ctr256_xor(key, pos, data)) == data,
{
    assert forall|i: int|
        0 <= i < data.len() implies ctr256_xor(key, pos, ctr256_xor(key, pos, data))[i]
        == data[i] by {
        let x = data[i];
        let k = aes256_ctr_byte(key, zero_iv(), pos + i);
        assert((x ^ k) ^ k == x) by (bit_vector);
    }
    assert(ctr256_xor(key, pos, ctr256_xor(key, pos, data)) =~= data);
}

/// The block that one MAC update absorbs: the sponge's current 16-byte
/// digest, encrypted under the MAC key, XOR-ed with the seed.
pub open spec fn mac_mixed(sp: Seq<u8>, mac_key: Seq<u8>, seed: Seq<u8>) -> Seq<u8> {
    xor_seq(block16(mac_key, digest16(sp)), seed)
}

/// The 16-byte MAC that one update returns: the digest after absorbing.
pub open spec fn mac_out(sp: Seq<u8>, mac_key: Seq<u8>, seed: Seq<u8>) -> Seq<u8> {
    digest16(sp + mac_mixed(sp, mac_key, seed))
}

/// One MAC update: encrypt the sponge's current 16-byte digest under the MAC
/// key, XOR the 16-byte seed in, absorb the result, and return the new
/// digest's first 16 bytes. The result and the new sponge state are functions
/// of the three arguments alone, and the sponge absorbs exactly one 16-byte
/// block per call.
pub fn update_mac(mac: &mut Sponge, mac_key: &Vec<u8>, seed: &Vec<u8>) -> (r: Vec<u8>)
    requires
        mac_key@.len() == 32,
        seed@.len() == 16,
    ensures
        final(mac)@ == old(mac)@ + mac_mixed(old(mac)@, mac_key@, seed@),
        r@ == mac_out(old(mac)@, mac_key@, seed@),
        r@.len() == 16,
{
    let digest_full = mac.peek();
    let digest = subvec(&digest_full, 0, 16);
    proof {
        assert(digest@ =~= digest16(mac@));
    }
    let encrypted = aes256_encrypt_block(mac_key, &digest);
    proof {
        assert(encrypted@ =~= block16(mac_key@, digest16(mac@)));
    }
    let mixed = xor_bytes(&encrypted, seed);
    proof {
        assert(mixed@ == mac_mixed(mac@, mac_key@, seed@));
    }
    mac.absorb(&mixed);
    let out_full = mac.peek();
    let out = subvec(&out_full, 0, 16);
    proof {
        assert(out@ =~= mac_out(old(mac)@, mac_key@, seed@));
    }
    out
}

/// The fixed 13 filler bytes of a frame header: the RLP of a zero protocol
/// id, zero-padded to the header's 16 bytes; both peers must use the same.
pub open spec fn header_filler() -> Seq<u8> {
    seq![0xc2u8, 0x80u8, 0x80u8, 0u8, 0u8, 0u8, 0u8, 0u8, 0u8, 0u8, 0u8, 0u8, 0u8]
}

fn make_header_filler() -> (r: Vec<u8>)
    ensures
        r@ == header_filler(),
{
    let mut v: Vec<u8> = Vec::new();
    v.push(0xc2u8);
    v.push(0x80u8);
    v.push(0x80u8);
    let mut i: usize = 0;
    while i < 10
        invariant
            i <= 10,
            v@.len() == 3 + i,
            v@ == header_filler().take(3 + i),
        decreases 10 - i,
    {
        v.push(0u8);
        assert(v@ =~= header_filler().take(3 + i + 1));
        i = i + 1;
    }
    assert(v@ =~= header_filler());
    v
}

/// The 16-byte plaintext header of a frame with `n` body bytes.
pub open spec fn frame_header(n: u32) -> Seq<u8> {
    be24_bytes(n) + header_filler()
}

/// The body length rounded up to a multiple of 16.
pub open spec fn padded_len(n: int) -> int {
    if n % 16 == 0 {
        n
    } else {
        n + 16 - (n % 16)
    }
}

/// The body, zero-padded to a multiple of 16.
pub open spec fn pad16(body: Seq<u8>) -> Seq<u8> {
    body + Seq::new((padded_len(body.len() as int) - body.len()) as nat, |i: int| 0u8)
}

fn padded_len_exec(n: usize) -> (r: usize)
    requires
        n < 0x1000000,
    ensures
        r == padded_len(n as int),
        r < 0x1000000 + 16,
        n <= r,
{
    if n % 16 == 0 {
        n
    } else {
        n + 16 - n % 16
    }
}

/// One direction of the codec: the model is the AES key, the MAC key, the
/// sponge transcript, and the CTR stream position.
pub ghost struct FrameModel {
    pub aes: Seq<u8>,
    pub mac: Seq<u8>,
    pub sponge: Seq<u8>,
    pub pos: int,
}

/// Both keys have their AES-256 size and the position is a byte count.
pub open spec fn frame_wf(m: FrameModel) -> bool {
    m.aes.len() == 32 && m.mac.len() == 32 && 0 <= m.pos
}

/// One direction's live state.
#[derive(Debug)]
pub struct FrameState {
    /// The AES-256-CTR key, shared by both directions.
    pub aes_key: Vec<u8>,
    /// The AES-256 key of the MAC update step.
    pub mac_key: Vec<u8>,
    /// The running authentication sponge.
    pub sponge: Sponge,
    /// The CTR stream position in bytes.
    pub pos: u64,
}

impl View for FrameState {
    type V = FrameModel;

    open spec fn view(&self) -> FrameModel {
        FrameModel {
            aes: self.aes_key@,
            mac: self.mac_key@,
            sponge: self.sponge@,
            pos: self.pos as int,
        }
    }
}

/// What writing `body` under state `m` produces: the frame's wire bytes and
/// the state afterwards. The header MAC is seeded with the encrypted header;
/// the body MAC with the sponge's own digest after absorbing the encrypted
/// body.
pub open spec fn write_frame_spec(m: FrameModel, body: Seq<u8>) -> (Seq<u8>, FrameModel) {
    let header = frame_header(body.len() as u32);
    let enc_header = ctr256_xor(m.aes, m.pos, header);
    let header_mac = mac_out(m.sponge, m.mac, enc_header);
    let sp1 = m.sponge + mac_mixed(m.sponge, m.mac, enc_header);
    let bp = pad16(body);
    let enc_body = ctr256_xor(m.aes, m.pos + 16, bp);
    let sp2 = sp1 + enc_body;
    let fmac_seed = digest16(sp2);
    let body_mac = mac_out(sp2, m.mac, fmac_seed);
    let sp3 = sp2 + mac_mixed(sp2, m.mac, fmac_seed);
    (
        enc_header + header_mac + enc_body + body_mac,
        FrameModel { aes: m.aes, mac: m.mac, sponge: sp3, pos: m.pos + 16 + bp.len() },
    )
}

/// What reading the 32 header wire bytes under state `m` yields: the body
/// length, or MacFailed on a tag mismatch (the sponge has absorbed its update
/// block either way), or Malformed on a zero body length.
pub open spec fn read_header_spec(m: FrameModel, data: Seq<u8>) -> (Result<int, Error>, FrameModel) {
    let enc_header = data.take(16);
    let header_mac = data.skip(16);
    let expected = mac_out(m.sponge, m.mac, enc_header);
    let m1 = FrameModel {
        aes: m.aes,
        mac: m.mac,
        sponge: m.sponge + mac_mixed(m.sponge, m.mac, enc_header),
        pos: m.pos,
    };
    if expected != header_mac {
        (Err(Error::MacFailed), m1)
    } else {
        let header = ctr256_xor(m.aes, m.pos, enc_header);
        let n = be24_val(header);
        let m2 = FrameModel { aes: m1.aes, mac: m1.mac, sponge: m1.sponge, pos: m.pos + 16 };
        if n == 0 {
            (Err(Error::Malformed), m2)
        } else {
            (Ok(n), m2)
        }
    }
}

/// What reading the body wire bytes (`enc_body ∥ body_mac`) yields: the
/// declared number of body bytes, or MacFailed on a tag mismatch.
pub open spec fn read_body_spec(m: FrameModel, body_len: int, data: Seq<u8>) -> (
    Result<Seq<u8>, Error>,
    FrameModel,
) {
    let rsize = data.len() - 16;
    let enc_body = data.take(rsize as int);
    let body_mac = data.skip(rsize as int);
    let sp1 = m.sponge + enc_body;
    let fmac_seed = digest16(sp1);
    let expected = mac_out(sp1, m.mac, fmac_seed);
    let m1 = FrameModel {
        aes: m.aes,
        mac: m.mac,
        sponge: sp1 + mac_mixed(sp1, m.mac, fmac_seed),
        pos: m.pos,
    };
    if expected != body_mac {
        (Err(Error::MacFailed), m1)
    } else {
        let m2 = FrameModel { aes: m1.aes, mac: m1.mac, sponge: m1.sponge, pos: m.pos + rsize };
        (Ok(ctr256_xor(m.aes, m.pos, enc_body).take(body_len)), m2)
    }
}

/// A post-handshake session: the two directions of the codec. Writes move
/// only the egress state; reads move only the ingress state.
#[derive(Debug)]
pub struct Session {
    /// The outbound direction.
    pub egress: FrameState,
    /// The inbound direction.
    pub ingress: FrameState,
}

impl Session {
    /// Both directions are well formed.
    pub open spec fn wf(&self) -> bool {
        frame_wf(self.egress@) && frame_wf(self.ingress@)
    }

    /// A session over freshly derived secrets: both directions share the AES
    /// and MAC keys, each CTR stream starts at position zero, and the sponges
    /// carry their handshake seeds.
    pub fn new(secrets: RlpxSecrets) -> (s: Session)
        requires
            secrets.aes_secret@.len() == 32,
            secrets.mac@.len() == 32,
        ensures
            s.wf(),
            s.egress@ == (FrameModel {
                aes: secrets@.aes,
                mac: secrets@.mac,
                sponge: secrets@.egress,
                pos: 0,
            }),
            s.ingress@ == (FrameModel {
                aes: secrets@.aes,
                mac: secrets@.mac,
                sponge: secrets@.ingress,
                pos: 0,
            }),
    {
        let aes2 = subvec(&secrets.aes_secret, 0, secrets.aes_secret.len());
        let mac2 = subvec(&secrets.mac, 0, secrets.mac.len());
        proof {
            assert(aes2@ =~= secrets.aes_secret@);
            assert(mac2@ =~= secrets.mac@);
        }
        Session {
            egress: FrameState {
                aes_key: secrets.aes_secret,
                mac_key: secrets.mac,
                sponge: secrets.egress_mac,
                pos: 0,
            },
            ingress: FrameState {
                aes_key: aes2,
                mac_key: mac2,
                sponge: secrets.ingress_mac,
                pos: 0,
            },
        }
    }

    /// Encrypts and authenticates one outbound frame; the result is its wire
    /// bytes. An empty body or one of 2^24 bytes or more is Malformed and a
    /// CTR stream that would outrun its 64-bit position is Crypto, both
    /// leaving the state unchanged; otherwise the frame and the new egress
    /// state are exactly `write_frame_spec`.
    pub fn write_frame(&mut self, body: &Vec<u8>) -> (r: Result<Vec<u8>, Error>)
        requires
            old(self).wf(),
        ensures
            final(self).wf(),
            final(self).ingress == old(self).ingress,
            final(self).egress@.aes == old(self).egress@.aes,
            final(self).egress@.mac == old(self).egress@.mac,
            (body@.len() == 0 || body@.len() >= 0x1000000) ==> r == Err::<Vec<u8>, Error>(
                Error::Malformed,
            ) && final(self).egress == old(self).egress,
            (0 < body@.len() < 0x1000000 && old(self).egress@.pos + 16 + padded_len(
                body@.len() as int,
            ) > u64::MAX) ==> r == Err::<Vec<u8>, Error>(Error::Crypto) && final(self).egress
                == old(self).egress,
            (0 < body@.len() < 0x1000000 && old(self).egress@.pos + 16 + padded_len(
                body@.len() as int,
            ) <= u64::MAX) ==> (r matches Ok(f) && (f@, final(self).egress@)
                == write_frame_spec(old(self).egress@, body@)),
    {
        if body.len() == 0 {
            return Err(Error::Malformed);
        }
        if body.len() >= 0x1000000 {
            return Err(Error::Malformed);
        }
        let rsize = padded_len_exec(body.len());
        if self.egress.pos > u64::MAX - 16 - rsize as u64 {
            return Err(Error::Crypto);
        }
        let ghost m0 = self.egress@;
        let mut header = u24_to_bytes(body.len() as u32);
        let filler = make_header_filler();
        append_bytes(&mut header, &filler);
        proof {
            assert(header@ =~= frame_header(body@.len() as u32));
        }
        let ziv = zero_bytes(16);
        proof {
            assert(ziv@ =~= zero_iv());
        }
        let enc_header = aes256_ctr_at(&self.egress.aes_key, &ziv, self.egress.pos, &header);
        proof {
            assert(enc_header@ =~= ctr256_xor(m0.aes, m0.pos, frame_header(body@.len() as u32)));
        }
        let header_mac = update_mac(&mut self.egress.sponge, &self.egress.mac_key, &enc_header);
        let mut bp = subvec(body, 0, body.len());
        let zpad = zero_bytes(rsize - body.len());
        append_bytes(&mut bp, &zpad);
        proof {
            assert(bp@ =~= pad16(body@));
        }
        let enc_body = aes256_ctr_at(
            &self.egress.aes_key,
            &ziv,
            self.egress.pos + 16,
            &bp,
        );
        proof {
            assert(enc_body@ =~= ctr256_xor(m0.aes, m0.pos + 16, pad16(body@)));
        }
        self.egress.sponge.absorb(&enc_body);
        let fseed_full = self.egress.sponge.peek();
        let fmac_seed = subvec(&fseed_full, 0, 16);
        proof {
            assert(fmac_seed@ =~= digest16(self.egress.sponge@));
        }
        let body_mac = update_mac(&mut self.egress.sponge, &self.egress.mac_key, &fmac_seed);
        self.egress.pos = self.egress.pos + 16 + rsize as u64;
        let ghost ehv = enc_header@;
        let mut out = enc_header;
        append_bytes(&mut out, &header_mac);
        append_bytes(&mut out, &enc_body);
        append_bytes(&mut out, &body_mac);
        proof {
            let (fs, ms) = write_frame_spec(m0, body@);
            assert(out@ =~= fs);
            assert(self.egress@ == ms);
        }
        Ok(out)
    }

    /// Checks and decodes the 32 header wire bytes of an inbound frame and
    /// returns the body length. A stream position past its 64-bit range is
    /// Crypto with the state unchanged; otherwise result and new ingress
    /// state are exactly `read_header_spec`.
    pub fn read_frame_header(&mut self, data: &Vec<u8>) -> (r: Result<usize, Error>)
        requires
            old(self).wf(),
            data@.len() == 32,
        ensures
            final(self).wf(),
            final(self).egress == old(self).egress,
            final(self).ingress@.aes == old(self).ingress@.aes,
            final(self).ingress@.mac == old(self).ingress@.mac,
            old(self).ingress@.pos + 16 > u64::MAX ==> r == Err::<usize, Error>(Error::Crypto)
                && final(self).ingress == old(self).ingress,
            old(self).ingress@.pos + 16 <= u64::MAX ==> ({
                let (sr, m2) = read_header_spec(old(self).ingress@, data@);
                final(self).ingress@ == m2 && res_len_view(r) == sr
            }),
            r matches Ok(n) ==> 0 < n < 0x1000000,
    {
        if self.ingress.pos > u64::MAX - 16 {
            return Err(Error::Crypto);
        }
        let ghost m0 = self.ingress@;
        let enc_header = subvec(data, 0, 16);
        let header_mac = subvec(data, 16, 32);
        proof {
            assert(enc_header@ =~= data@.take(16));
            assert(header_mac@ =~= data@.skip(16));
        }
        let expected = update_mac(&mut self.ingress.sponge, &self.ingress.mac_key, &enc_header);
        if !ct_eq(&expected, &header_mac) {
            return Err(Error::MacFailed);
        }
        let ziv = zero_bytes(16);
        proof {
            assert(ziv@ =~= zero_iv());
        }
        let header = aes256_ctr_at(&self.ingress.aes_key, &ziv, self.ingress.pos, &enc_header);
        self.ingress.pos = self.ingress.pos + 16;
        proof {
            assert(header@ =~= ctr256_xor(m0.aes, m0.pos, data@.take(16)));
        }
        let n = bytes_to_u24(header.as_slice());
        if n == 0 {
            return Err(Error::Malformed);
        }
        Ok(n as usize)
    }

    /// Checks and decrypts the body wire bytes (`enc_body ∥ body_mac`) of an
    /// inbound frame whose header announced `body_len` body bytes. A stream
    /// position past its 64-bit range is Crypto with the state unchanged;
    /// otherwise result and new ingress state are exactly `read_body_spec`.
    pub fn read_frame_body(&mut self, body_len: usize, data: &Vec<u8>) -> (r: Result<
        Vec<u8>,
        Error,
    >)
        requires
            old(self).wf(),
            0 < body_len < 0x1000000,
            data@.len() == padded_len(body_len as int) + 16,
        ensures
            final(self).wf(),
            final(self).egress == old(self).egress,
            final(self).ingress@.aes == old(self).ingress@.aes,
            final(self).ingress@.mac == old(self).ingress@.mac,
            old(self).ingress@.pos + padded_len(body_len as int) > u64::MAX ==> r == Err::<
                Vec<u8>,
                Error,
            >(Error::Crypto) && final(self).ingress == old(self).ingress,
            old(self).ingress@.pos + padded_len(body_len as int) <= u64::MAX ==> ({
                let (sr, m2) = read_body_spec(old(self).ingress@, body_len as int, data@);
                final(self).ingress@ == m2 && res_view(r) == sr
            }),
    {
        let rsize = padded_len_exec(body_len);
        if self.ingress.pos > u64::MAX - rsize as u64 {
            return Err(Error::Crypto);
        }
        let ghost m0 = self.ingress@;
        let enc_body = subvec(data, 0, rsize);
        let body_mac = subvec(data, rsize, rsize + 16);
        proof {
            assert(enc_body@ =~= data@.take(rsize as int));
            assert(body_mac@ =~= data@.skip(rsize as int));
        }
        self.ingress.sponge.absorb(&enc_body);
        let fseed_full = self.ingress.sponge.peek();
        let fmac_seed = subvec(&fseed_full, 0, 16);
        proof {
            assert(fmac_seed@ =~= digest16(self.ingress.sponge@));
        }
        let expected = update_mac(&mut self.ingress.sponge, &self.ingress.mac_key, &fmac_seed);
        if !ct_eq(&expected, &body_mac) {
            return Err(Error::MacFailed);
        }
        let ziv = zero_bytes(16);
        proof {
            assert(ziv@ =~= zero_iv());
        }
        let decrypted = aes256_ctr_at(&self.ingress.aes_key, &ziv, self.ingress.pos, &enc_body);
        self.ingress.pos = self.ingress.pos + rsize as u64;
        let out = subvec(&decrypted, 0, body_len);
        proof {
            assert(decrypted@ =~= ctr256_xor(m0.aes, m0.pos, data@.take(rsize as int)));
            assert(out@ =~= ctr256_xor(m0.aes, m0.pos, data@.take(rsize as int)).take(
                body_len as int,
            ));
        }
        Ok(out)
    }
}

/// The view of a decoded header result.
pub open spec fn res_len_view(r: Result<usize, Error>) -> Result<int, Error> {
    match r {
        Ok(n) => Ok(n as int),
        Err(e) => Err(e),
    }
}

/// The number of wire bytes that follow the 32 header bytes of a frame with
/// `body_len` body bytes: the padded body and the 16-byte body MAC.
pub fn body_wire_len(body_len: usize) -> (r: usize)
    requires
        0 < body_len < 0x1000000,
    ensures
        r == padded_len(body_len as int) + 16,
{
    padded_len_exec(body_len) + 16
}

/// Law: a frame written under some state is read back intact by a peer whose
/// ingress state equals the writer's old egress state — the header read
/// yields the body length, the body read yields the body, and both sides'
/// states advance to the same model.
pub proof fn lemma_frame_round_trip(m: FrameModel, body: Seq<u8>)
    requires
        frame_wf(m),
        0 < body.len() < 0x1000000,
    ensures
        ({
            let (frame, w2) = write_frame_spec(m, body);
            let (hr, m1) = read_header_spec(m, frame.subrange(0, 32));
            hr == Ok::<int, Error>(body.len() as int) && {
                let (br, m2) = read_body_spec(
                    m1,
                    body.len() as int,
                    frame.subrange(32, frame.len() as int),
                );
                br == Ok::<Seq<u8>, Error>(body) && m2 == w2
            }
        }),
{
    let (frame, w2) = write_frame_spec(m, body);
    let header = frame_header(body.len() as u32);
    let enc_header = ctr256_xor(m.aes, m.pos, header);
    let header_mac = mac_out(m.sponge, m.mac, enc_header);
    let sp1 = m.sponge + mac_mixed(m.sponge, m.mac, enc_header);
    let bp = pad16(body);
    let enc_body = ctr256_xor(m.aes, m.pos + 16, bp);
    let sp2 = sp1 + enc_body;
    let fmac_seed = digest16(sp2);
    let body_mac = mac_out(sp2, m.mac, fmac_seed);

    assert(enc_header.len() == 16);
    assert(header_mac.len() == 16);
    assert(bp.len() == padded_len(body.len() as int));
    assert(enc_body.len() == bp.len());
    assert(body_mac.len() == 16);

    let hdr_wire = frame.subrange(0, 32);
    assert(hdr_wire.take(16) =~= enc_header);
    assert(hdr_wire.skip(16) =~= header_mac);

    let (hr, m1) = read_header_spec(m, hdr_wire);
    lemma_ctr256_involutive(m.aes, m.pos, header);
    let dec_header = ctr256_xor(m.aes, m.pos, hdr_wire.take(16));
    assert(dec_header == header);
    assert(be24_val(header) == be24_val(be24_bytes(body.len() as u32))) by {
        assert(header[0] == be24_bytes(body.len() as u32)[0]);
        assert(header[1] == be24_bytes(body.len() as u32)[1]);
        assert(header[2] == be24_bytes(body.len() as u32)[2]);
    }
    lemma_be24_round_trip(body.len() as u32);
    assert(be24_val(header) == body.len() as int);
    assert(hr == Ok::<int, Error>(body.len() as int));
    assert(m1.sponge == sp1);
    assert(m1.pos == m.pos + 16);

    let body_wire = frame.subrange(32, frame.len() as int);
    assert(body_wire.len() == bp.len() + 16);
    assert(body_wire.take(bp.len() as int) =~= enc_body);
    assert(body_wire.skip(bp.len() as int) =~= body_mac);

    let (br, m2) = read_body_spec(m1, body.len() as int, body_wire);
    lemma_ctr256_involutive(m.aes, m.pos + 16, bp);
    assert(ctr256_xor(m1.aes, m1.pos, enc_body) == bp);
    assert(bp.take(body.len() as int) =~= body);
    assert(br == Ok::<Seq<u8>, Error>(body));
    assert(m2 == w2);
}

/// Law (one direction of corruption detection): altering any byte of the
/// header MAC region of a written frame — and nothing before it — makes the
/// header read fail with MacFailed.
pub proof fn lemma_header_mac_corruption(m: FrameModel, body: Seq<u8>, data: Seq<u8>)
    requires
        frame_wf(m),
        0 < body.len() < 0x1000000,
        data.len() == 32,
        data.take(16) == write_frame_spec(m, body).0.subrange(0, 16),
        data.skip(16) != write_frame_spec(m, body).0.subrange(16, 32),
    ensures
        read_header_spec(m, data).0 == Err::<int, Error>(Error::MacFailed),
{
    let frame = write_frame_spec(m, body).0;
    let header = frame_header(body.len() as u32);
    let enc_header = ctr256_xor(m.aes, m.pos, header);
    let header_mac = mac_out(m.sponge, m.mac, enc_header);
    assert(frame.subrange(0, 16) =~= enc_header);
    assert(frame.subrange(16, 32) =~= header_mac);
    assert(data.take(16) == enc_header);
    assert(mac_out(m.sponge, m.mac, data.take(16)) == header_mac);
    assert(data.skip(16) != header_mac);
}

/// Law (the other direction): altering any byte of the body MAC region of a
/// written frame — and nothing before it — makes the body read fail with
/// MacFailed, after a clean header read.
pub proof fn lemma_body_mac_corruption(m: FrameModel, body: Seq<u8>, data: Seq<u8>)
    requires
        frame_wf(m),
        0 < body.len() < 0x1000000,
        ({
            let frame = write_frame_spec(m, body).0;
            data.len() == frame.len() - 32 && data.take(data.len() - 16) == frame.subrange(
                32,
                frame.len() - 16,
            ) && data.skip(data.len() - 16) != frame.subrange(
                frame.len() - 16,
                frame.len() as int,
            )
        }),
    ensures
        ({
            let m1 = read_header_spec(m, write_frame_spec(m, body).0.subrange(0, 32)).1;
            read_body_spec(m1, body.len() as int, data).0 == Err::<Seq<u8>, Error>(
                Error::MacFailed,
            )
        }),
{
    let frame = write_frame_spec(m, body).0;
    let header = frame_header(body.len() as u32);
    let enc_header = ctr256_xor(m.aes, m.pos, header);
    let header_mac = mac_out(m.sponge, m.mac, enc_header);
    let sp1 = m.sponge + mac_mixed(m.sponge, m.mac, enc_header);
    let bp = pad16(body);
    let enc_body = ctr256_xor(m.aes, m.pos + 16, bp);
    let sp2 = sp1 + enc_body;
    let fmac_seed = digest16(sp2);
    let body_mac = mac_out(sp2, m.mac, fmac_seed);
    assert(frame.len() == 32 + bp.len() + 16);
    let m1 = read_header_spec(m, frame.subrange(0, 32)).1;
    assert(frame.subrange(0, 32).take(16) =~= enc_header);
    assert(m1.sponge == sp1);
    assert(data.len() == bp.len() + 16);
    assert(data.take(data.len() - 16) =~= frame.subrange(32, frame.len() - 16));
    assert(frame.subrange(32, frame.len() - 16) =~= enc_body);
    assert(frame.subrange(frame.len() - 16, frame.len() as int) =~= body_mac);
    assert(m1.sponge + data.take(data.len() - 16) == sp2);
    assert(mac_out(sp2, m1.mac, digest16(sp2)) == body_mac);
    assert(data.skip(data.len() - 16) != body_mac);
}

} // verus!
