use ed25519_dalek::{Keypair, PublicKey, SecretKey, Signer};
use interactions::signature::SignatureError;
use interactions::validate_headers;

fn keypair() -> Keypair {
    let secret = SecretKey::from_bytes(&[7u8; 32]).unwrap();
    let public = PublicKey::from(&secret);
    Keypair { secret, public }
}

fn public_hex() -> String {
    hex::encode(keypair().public.as_bytes())
}

fn sign(timestamp: &str, body: &[u8]) -> String {
    let mut message = timestamp.as_bytes().to_vec();
    message.extend_from_slice(body);
    hex::encode(keypair().sign(&message).to_bytes())
}

fn flip_hex_bit(s: &str, byte: usize, bit: u8) -> String {
    let mut b = hex::decode(s).unwrap();
    b[byte] ^= 1 << bit;
    hex::encode(b)
}

#[test]
fn valid_signature_over_timestamp_and_body_passes() {
    let body = br#"{"type":1}"#;
    let sig = sign("1700000000", body);
    assert_eq!(validate_headers(Some(sig.as_str()), Some("1700000000"), body, &public_hex()), Ok(true));
}

#[test]
fn empty_body_signature_passes() {
    let sig = sign("42", b"");
    assert_eq!(validate_headers(Some(sig.as_str()), Some("42"), b"", &public_hex()), Ok(true));
}

#[test]
fn uppercase_hex_is_accepted() {
    let body = b"payload";
    let sig = sign("1", body).to_uppercase();
    assert_eq!(validate_headers(Some(sig.as_str()), Some("1"), body, &public_hex().to_uppercase()), Ok(true));
}

#[test]
fn mutated_body_fails() {
    let body = b"hello world".to_vec();
    let sig = sign("1700000000", &body);
    for i in 0..body.len() {
        let mut m = body.clone();
        m[i] ^= 1;
        assert_eq!(validate_headers(Some(sig.as_str()), Some("1700000000"), &m, &public_hex()), Ok(false));
    }
}

#[test]
fn mutated_signature_fails() {
    let body = b"hello";
    let sig = sign("1700000000", body);
    for byte in [0usize, 10, 31, 32, 50, 62] {
        let m = flip_hex_bit(&sig, byte, 0);
        assert_eq!(validate_headers(Some(m.as_str()), Some("1700000000"), body, &public_hex()), Ok(false));
    }
}

#[test]
fn mutated_timestamp_fails() {
    let body = b"hello";
    let sig = sign("1700000000", body);
    assert_eq!(validate_headers(Some(sig.as_str()), Some("1700000001"), body, &public_hex()), Ok(false));
    assert_eq!(validate_headers(Some(sig.as_str()), Some("170000000"), body, &public_hex()), Ok(false));
}

#[test]
fn timestamp_and_body_are_not_interchangeable() {
    let sig = sign("12", b"34");
    assert_eq!(validate_headers(Some(sig.as_str()), Some("1"), b"234", &public_hex()), Ok(true));
    assert_eq!(validate_headers(Some(sig.as_str()), Some("34"), b"12", &public_hex()), Ok(false));
}

#[test]
fn missing_headers_fail_without_decoding() {
    // The key is not even hex: a missing header is reported before it is read.
    assert_eq!(validate_headers(None, Some("1"), b"x", "zz"), Ok(false));
    assert_eq!(validate_headers(Some("00"), None, b"x", "zz"), Ok(false));
    assert_eq!(validate_headers(None, None, b"x", "zz"), Ok(false));
}

#[test]
fn malformed_key_hex_is_an_error() {
    let sig = sign("1", b"x");
    assert_eq!(validate_headers(Some(sig.as_str()), Some("1"), b"x", "zz"), Err(SignatureError::PublicKeyHex));
    assert_eq!(validate_headers(Some(sig.as_str()), Some("1"), b"x", "abc"), Err(SignatureError::PublicKeyHex));
}

#[test]
fn malformed_signature_hex_is_an_error() {
    assert_eq!(validate_headers(Some("xyz0"), Some("1"), b"x", &public_hex()), Err(SignatureError::SignatureHex));
    assert_eq!(validate_headers(Some("0"), Some("1"), b"x", &public_hex()), Err(SignatureError::SignatureHex));
}

#[test]
fn short_key_is_an_error_and_short_signature_fails() {
    let sig = sign("1", b"x");
    assert_eq!(validate_headers(Some(sig.as_str()), Some("1"), b"x", "0011"), Err(SignatureError::PublicKeyLength));
    assert_eq!(validate_headers(Some("0011"), Some("1"), b"x", &public_hex()), Ok(false));
}

#[test]
fn signature_with_high_bits_set_fails_without_panicking() {
    let body = b"x";
    let sig = sign("1", body);
    let m = flip_hex_bit(&sig, 63, 7);
    assert_eq!(validate_headers(Some(m.as_str()), Some("1"), body, &public_hex()), Ok(false));
}

#[test]
fn longer_key_is_an_error_and_longer_signature_fails() {
    let body = b"x";
    let sig = sign("1", body);
    let long_key = format!("{}00", public_hex());
    assert_eq!(validate_headers(Some(sig.as_str()), Some("1"), body, &long_key), Err(SignatureError::PublicKeyLength));
    let long_sig = format!("{}00", sig);
    assert_eq!(validate_headers(Some(long_sig.as_str()), Some("1"), body, &public_hex()), Ok(false));
}
