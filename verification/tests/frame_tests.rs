use rlpx::bytes::bytes_to_u24;
use rlpx::crypto::Sponge;
use rlpx::frame::body_wire_len;
use rlpx::frame::update_mac;
use rlpx::frame::Session;
use rlpx::rlpx::RlpxSecrets;
use rlpx::Error;
use sha3::Digest;
use sha3::Keccak256;

const AES_KEY: [u8; 32] = [0x0au8; 32];
const MAC_KEY: [u8; 32] = [0x0bu8; 32];

fn seeded_sponge(seed: &[u8]) -> Sponge {
    let mut s = Sponge::new();
    s.absorb(&seed.to_vec());
    s
}

/// A writer/reader pair whose egress and ingress states mirror each other.
fn paired_sessions() -> (Session, Session) {
    let writer = Session::new(RlpxSecrets {
        aes_secret: AES_KEY.to_vec(),
        mac: MAC_KEY.to_vec(),
        token: vec![0u8; 32],
        egress_mac: seeded_sponge(b"direction-a"),
        ingress_mac: seeded_sponge(b"direction-b"),
    });
    let reader = Session::new(RlpxSecrets {
        aes_secret: AES_KEY.to_vec(),
        mac: MAC_KEY.to_vec(),
        token: vec![0u8; 32],
        egress_mac: seeded_sponge(b"direction-b"),
        ingress_mac: seeded_sponge(b"direction-a"),
    });
    (writer, reader)
}

fn read_whole_frame(reader: &mut Session, frame: &[u8]) -> Result<Vec<u8>, Error> {
    let header = frame[..32].to_vec();
    let body_len = reader.read_frame_header(&header)?;
    let rest_len = body_wire_len(body_len);
    assert_eq!(frame.len(), 32 + rest_len);
    let rest = frame[32..].to_vec();
    reader.read_frame_body(body_len, &rest)
}

#[test]
fn frame_round_trip_small() {
    let (mut writer, mut reader) = paired_sessions();
    let body = b"hello".to_vec();
    let frame = writer.write_frame(&body).unwrap();
    assert_eq!(frame.len(), 16 + 16 + 16 + 16);
    let out = read_whole_frame(&mut reader, &frame).unwrap();
    assert_eq!(out, body);
}

#[test]
fn frame_round_trip_exact_block() {
    let (mut writer, mut reader) = paired_sessions();
    let mut body = vec![0u8; 32];
    rand::fill(body.as_mut_slice());
    let frame = writer.write_frame(&body).unwrap();
    assert_eq!(frame.len(), 16 + 16 + 32 + 16);
    let out = read_whole_frame(&mut reader, &frame).unwrap();
    assert_eq!(out, body);
}

#[test]
fn frame_round_trip_sequence_shares_one_stream() {
    // Several frames in a row: the CTR stream and the sponges advance in
    // lockstep on both sides.
    let (mut writer, mut reader) = paired_sessions();
    for (i, len) in [1usize, 15, 16, 17, 100].iter().enumerate() {
        let body = vec![i as u8 + 1; *len];
        let frame = writer.write_frame(&body).unwrap();
        let out = read_whole_frame(&mut reader, &frame).unwrap();
        assert_eq!(out, body);
    }
}

#[test]
fn frame_rejects_empty_and_oversized_body() {
    let (mut writer, _) = paired_sessions();
    assert_eq!(writer.write_frame(&Vec::new()).unwrap_err(), Error::Malformed);
    let huge = vec![0u8; 1 << 24];
    assert_eq!(writer.write_frame(&huge).unwrap_err(), Error::Malformed);
}

#[test]
fn frame_body_tamper_is_mac_failed() {
    let (mut writer, mut reader) = paired_sessions();
    let body = b"payload under test".to_vec();
    let mut frame = writer.write_frame(&body).unwrap();
    // Flip byte 0 of enc_body in transit.
    frame[32] ^= 0x01;
    assert_eq!(read_whole_frame(&mut reader, &frame).unwrap_err(), Error::MacFailed);
}

#[test]
fn frame_header_tamper_is_mac_failed() {
    let (mut writer, mut reader) = paired_sessions();
    let body = b"payload".to_vec();
    let mut frame = writer.write_frame(&body).unwrap();
    frame[0] ^= 0x80;
    assert_eq!(read_whole_frame(&mut reader, &frame).unwrap_err(), Error::MacFailed);
}

#[test]
fn frame_header_mac_tamper_is_mac_failed() {
    let (mut writer, mut reader) = paired_sessions();
    let body = b"payload".to_vec();
    let mut frame = writer.write_frame(&body).unwrap();
    frame[16] ^= 0x01;
    assert_eq!(read_whole_frame(&mut reader, &frame).unwrap_err(), Error::MacFailed);
}

#[test]
fn frame_body_mac_tamper_is_mac_failed() {
    let (mut writer, mut reader) = paired_sessions();
    let body = b"payload".to_vec();
    let mut frame = writer.write_frame(&body).unwrap();
    let last = frame.len() - 1;
    frame[last] ^= 0x01;
    assert_eq!(read_whole_frame(&mut reader, &frame).unwrap_err(), Error::MacFailed);
}

#[test]
fn zero_length_header_is_malformed() {
    // A correctly authenticated header that announces a zero-length body.
    let (_, mut reader) = paired_sessions();

    // Encrypt a zero header on the reader's ingress stream (position 0).
    let mut cipher = <ctr::Ctr128BE<aes::Aes256> as aes::cipher::KeyIvInit>::new_from_slices(
        &AES_KEY,
        &[0u8; 16],
    ).unwrap();
    let mut enc_header = [0u8; 16].to_vec();
    aes::cipher::StreamCipher::apply_keystream(&mut cipher, enc_header.as_mut_slice());

    // Authenticate it against a copy of the reader's ingress sponge.
    let mut sponge = seeded_sponge(b"direction-a");
    let mac = update_mac(&mut sponge, &MAC_KEY.to_vec(), &enc_header);

    let mut data = enc_header;
    data.extend_from_slice(&mac);
    assert_eq!(reader.read_frame_header(&data).unwrap_err(), Error::Malformed);
}

#[test]
fn frame_bytes_interoperate_with_direct_crypto() {
    // Check the wire bytes of a frame against the crates used directly.
    let (mut writer, _) = paired_sessions();
    let body = b"hello".to_vec();
    let frame = writer.write_frame(&body).unwrap();

    // Header: BE24 length then the fixed filler, encrypted at position 0.
    let mut header = vec![0u8, 0, 5, 0xc2, 0x80, 0x80];
    header.extend_from_slice(&[0u8; 10]);
    let mut cipher = <ctr::Ctr128BE<aes::Aes256> as aes::cipher::KeyIvInit>::new_from_slices(
        &AES_KEY,
        &[0u8; 16],
    ).unwrap();
    let mut enc = header.clone();
    aes::cipher::StreamCipher::apply_keystream(&mut cipher, enc.as_mut_slice());
    assert_eq!(&frame[..16], enc.as_slice());

    // Body: zero-padded to 16 bytes, encrypted on the same stream.
    let mut padded = body.clone();
    padded.resize(16, 0);
    let mut enc_body = padded;
    aes::cipher::StreamCipher::apply_keystream(&mut cipher, enc_body.as_mut_slice());
    assert_eq!(&frame[32..48], enc_body.as_slice());

    // Header MAC: encrypt the sponge digest, XOR the encrypted header in,
    // absorb, and take the new digest.
    let mut transcript = b"direction-a".to_vec();
    let digest = Keccak256::digest(&transcript);
    let aes_ecb = <aes::Aes256 as aes::cipher::KeyInit>::new_from_slice(&MAC_KEY).unwrap();
    let mut block = aes::Block::try_from(&digest[..16]).unwrap();
    aes::cipher::BlockCipherEncrypt::encrypt_block(&aes_ecb, &mut block);
    let mixed: Vec<u8> = (0..16).map(|i| block[i] ^ frame[i]).collect();
    transcript.extend_from_slice(&mixed);
    let header_mac = &Keccak256::digest(&transcript)[..16];
    assert_eq!(&frame[16..32], header_mac);
}

#[test]
fn update_mac_is_deterministic_and_absorbs_once() {
    let seed = vec![0x5au8; 16];
    let mut a = seeded_sponge(b"same-state");
    let mut b = seeded_sponge(b"same-state");
    let out_a = update_mac(&mut a, &MAC_KEY.to_vec(), &seed);
    let out_b = update_mac(&mut b, &MAC_KEY.to_vec(), &seed);
    assert_eq!(out_a, out_b);
    assert_eq!(out_a.len(), 16);
    assert_eq!(a, b);

    // The sponge absorbed exactly one 16-byte block: absorbing the same
    // mixed block by hand reproduces the state.
    let mut by_hand = seeded_sponge(b"same-state");
    let digest = Keccak256::digest(b"same-state");
    let aes_ecb = <aes::Aes256 as aes::cipher::KeyInit>::new_from_slice(&MAC_KEY).unwrap();
    let mut block = aes::Block::try_from(&digest[..16]).unwrap();
    aes::cipher::BlockCipherEncrypt::encrypt_block(&aes_ecb, &mut block);
    let mixed: Vec<u8> = (0..16).map(|i| block[i] ^ seed[i]).collect();
    by_hand.absorb(&mixed);
    assert_eq!(a, by_hand);
}

#[test]
fn bytes_to_u24_reads_big_endian() {
    assert_eq!(bytes_to_u24(&[0x01, 0x02, 0x03]), 0x010203);
    assert_eq!(bytes_to_u24(&[0x00, 0x00, 0x05, 0xff]), 5);
    assert_eq!(bytes_to_u24(&[0xff, 0xff, 0xff]), 0xffffff);
}
