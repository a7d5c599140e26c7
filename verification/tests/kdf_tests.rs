use rlpx::kdf::KeyDerivation;
use rlpx::kdf::Sha256Kdf;
use sha2::Digest;
use sha2::Sha256;

#[test]
fn kdf_vector_all_zero_key() {
    // z = 32 zero bytes, s1 empty, 32 bytes out: one round,
    // SHA-256(00000001 || 00...00).
    let z = vec![0u8; 32];
    let s1: Vec<u8> = Vec::new();
    let out = Sha256Kdf.concat_kdf(&z, &s1, 32);

    let mut input = vec![0u8, 0, 0, 1];
    input.extend_from_slice(&z);
    let expected = Sha256::digest(&input);

    assert_eq!(out.len(), 32);
    assert_eq!(out.as_slice(), expected.as_slice());
    assert_eq!(out[0], 0xc2);
}

#[test]
fn kdf_two_rounds_and_truncation() {
    let z = vec![0xabu8; 7];
    let s1 = vec![0x01u8, 0x02];
    let out = Sha256Kdf.concat_kdf(&z, &s1, 40);
    assert_eq!(out.len(), 40);

    let mut round = |counter: u8| -> Vec<u8> {
        let mut input = vec![0u8, 0, 0, counter];
        input.extend_from_slice(&z);
        input.extend_from_slice(&s1);
        Sha256::digest(&input).to_vec()
    };
    let mut expected = round(1);
    expected.extend_from_slice(&round(2));
    expected.truncate(40);
    assert_eq!(out, expected);
}

#[test]
fn kdf_empty_output() {
    let z = vec![0x42u8; 32];
    let s1: Vec<u8> = Vec::new();
    let out = Sha256Kdf.concat_kdf(&z, &s1, 0);
    assert!(out.is_empty());
}

#[test]
fn kdf_short_output_is_prefix() {
    let z = vec![0x10u8; 32];
    let s1: Vec<u8> = Vec::new();
    let long = Sha256Kdf.concat_kdf(&z, &s1, 32);
    let short = Sha256Kdf.concat_kdf(&z, &s1, 16);
    assert_eq!(short.as_slice(), &long[..16]);
}
