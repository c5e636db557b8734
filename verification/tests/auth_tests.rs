use dmbot::auth::{prepare, AuthError, HeaderField, KeyError, PingVerifier};

use ed25519_dalek::Signer;
use ed25519_dalek::SigningKey;

fn test_signing_key() -> SigningKey {
    SigningKey::from_bytes(&[7u8; 32])
}

fn test_verifier() -> PingVerifier {
    let vk_bytes = test_signing_key().verifying_key().to_bytes();
    PingVerifier::new(&hex::encode(vk_bytes)).unwrap()
}

#[test]
fn valid_signature_verifies() {
    let sk = test_signing_key();
    let pv = test_verifier();

    let timestamp = b"1700000000".to_vec();
    let body = br#"{"type":1}"#.to_vec();

    let mut payload = timestamp.clone();
    payload.extend_from_slice(&body);
    let sig = sk.sign(&payload);
    let sig_hex = hex::encode(sig.to_bytes());

    let prepared = prepare(
        HeaderField::Text(sig_hex.clone().into_bytes()),
        HeaderField::Text(timestamp.clone()),
        &body,
    )
    .unwrap();

    assert_eq!(prepared.payload, payload);
    assert_eq!(prepared.signature, sig_hex.into_bytes());
    assert!(pv.verify(&prepared.payload, &prepared.signature));
}

#[test]
fn upper_case_signature_hex_verifies() {
    let sk = test_signing_key();
    let pv = test_verifier();

    let payload = b"1700000000hello".to_vec();
    let sig = sk.sign(&payload);
    let sig_hex = hex::encode(sig.to_bytes()).to_uppercase();

    assert!(pv.verify(&payload, sig_hex.as_bytes()));
}

#[test]
fn any_flipped_signature_bit_fails() {
    let sk = test_signing_key();
    let pv = test_verifier();

    let payload = b"1700000000{\"type\":1}".to_vec();
    let sig_bytes = sk.sign(&payload).to_bytes();
    assert!(pv.verify(&payload, hex::encode(sig_bytes).as_bytes()));

    for bit in 0..512 {
        let mut tampered = sig_bytes;
        tampered[bit / 8] ^= 1u8 << (bit % 8);
        let tampered_hex = hex::encode(tampered);
        assert!(
            !pv.verify(&payload, tampered_hex.as_bytes()),
            "bit {} flipped but verify still accepted",
            bit
        );
    }
}

#[test]
fn tampered_payload_fails() {
    let sk = test_signing_key();
    let pv = test_verifier();

    let payload = b"1700000000{\"type\":1}".to_vec();
    let sig_hex = hex::encode(sk.sign(&payload).to_bytes());

    let mut other_payload = payload.clone();
    other_payload[0] ^= 1;
    assert!(!pv.verify(&other_payload, sig_hex.as_bytes()));
}

#[test]
fn wrong_key_fails() {
    let sk = test_signing_key();
    let other_vk = SigningKey::from_bytes(&[9u8; 32]).verifying_key();
    let pv = PingVerifier::new(&hex::encode(other_vk.to_bytes())).unwrap();

    let payload = b"1700000000x".to_vec();
    let sig_hex = hex::encode(sk.sign(&payload).to_bytes());
    assert!(!pv.verify(&payload, sig_hex.as_bytes()));
}

#[test]
fn missing_signature_header_is_missing_header() {
    let r = prepare(
        HeaderField::Missing,
        HeaderField::Text(b"1700000000".to_vec()),
        &b"body".to_vec(),
    );
    assert_eq!(r.unwrap_err(), AuthError::MissingHeader);
}

#[test]
fn missing_timestamp_header_is_missing_header() {
    let r = prepare(
        HeaderField::Text(b"abcd".to_vec()),
        HeaderField::Missing,
        &b"body".to_vec(),
    );
    assert_eq!(r.unwrap_err(), AuthError::MissingHeader);
}

#[test]
fn both_headers_missing_is_missing_header() {
    let r = prepare(HeaderField::Missing, HeaderField::Missing, &b"body".to_vec());
    assert_eq!(r.unwrap_err(), AuthError::MissingHeader);
}

#[test]
fn missing_timestamp_wins_over_undecodable_signature() {
    let r = prepare(HeaderField::NotText, HeaderField::Missing, &b"body".to_vec());
    assert_eq!(r.unwrap_err(), AuthError::MissingHeader);
}

#[test]
fn missing_signature_wins_over_undecodable_timestamp() {
    let r = prepare(HeaderField::Missing, HeaderField::NotText, &b"body".to_vec());
    assert_eq!(r.unwrap_err(), AuthError::MissingHeader);
}

#[test]
fn both_headers_undecodable_is_encoding_error() {
    let r = prepare(HeaderField::NotText, HeaderField::NotText, &b"body".to_vec());
    assert_eq!(r.unwrap_err(), AuthError::HeaderEncodingError);
}

#[test]
fn undecodable_signature_header_is_encoding_error() {
    let r = prepare(
        HeaderField::NotText,
        HeaderField::Text(b"1700000000".to_vec()),
        &b"body".to_vec(),
    );
    assert_eq!(r.unwrap_err(), AuthError::HeaderEncodingError);
}

#[test]
fn undecodable_timestamp_header_is_encoding_error() {
    let r = prepare(
        HeaderField::Text(b"abcd".to_vec()),
        HeaderField::NotText,
        &b"body".to_vec(),
    );
    assert_eq!(r.unwrap_err(), AuthError::HeaderEncodingError);
}

#[test]
fn payload_is_timestamp_then_body_with_no_separator() {
    let r = prepare(
        HeaderField::Text(b"aa".to_vec()),
        HeaderField::Text(b"123".to_vec()),
        &b"{}".to_vec(),
    )
    .unwrap();
    assert_eq!(r.payload, b"123{}".to_vec());
    assert_eq!(r.signature, b"aa".to_vec());
}

#[test]
fn empty_body_payload_is_timestamp_alone() {
    let r = prepare(
        HeaderField::Text(b"aa".to_vec()),
        HeaderField::Text(b"123".to_vec()),
        &Vec::new(),
    )
    .unwrap();
    assert_eq!(r.payload, b"123".to_vec());
}

#[test]
fn malformed_signature_hex_is_rejected() {
    let pv = test_verifier();
    let payload = b"x".to_vec();
    // Not hexadecimal at all.
    assert!(!pv.verify(&payload, b"zz".as_slice()));
    // Odd length.
    assert!(!pv.verify(&payload, b"abc".as_slice()));
    // Valid hexadecimal but not 64 bytes.
    assert!(!pv.verify(&payload, b"abcd".as_slice()));
    // Valid hexadecimal, 65 bytes.
    let too_long = hex::encode([0u8; 65]);
    assert!(!pv.verify(&payload, too_long.as_bytes()));
    // Empty.
    assert!(!pv.verify(&payload, b"".as_slice()));
}

#[test]
fn key_not_hex_is_rejected() {
    assert_eq!(PingVerifier::new("zz").unwrap_err(), KeyError::NotHex);
    assert_eq!(PingVerifier::new("abc").unwrap_err(), KeyError::NotHex);
}

#[test]
fn key_wrong_length_is_rejected() {
    let short = hex::encode([1u8; 31]);
    assert_eq!(PingVerifier::new(&short).unwrap_err(), KeyError::WrongLength);
    let long = hex::encode([1u8; 33]);
    assert_eq!(PingVerifier::new(&long).unwrap_err(), KeyError::WrongLength);
}

#[test]
fn key_that_is_no_curve_point_is_rejected() {
    let mut invalid: Option<[u8; 32]> = None;
    for b in 0..=255u8 {
        let candidate = [b; 32];
        if ed25519_dalek::VerifyingKey::from_bytes(&candidate).is_err() {
            invalid = Some(candidate);
            break;
        }
    }
    let candidate = invalid.expect("some constant byte pattern is not a curve point");
    assert_eq!(
        PingVerifier::new(&hex::encode(candidate)).unwrap_err(),
        KeyError::NotAKey
    );
}

#[test]
fn valid_key_is_accepted() {
    let vk_bytes = test_signing_key().verifying_key().to_bytes();
    assert!(PingVerifier::new(&hex::encode(vk_bytes)).is_ok());
}
