use hmac::{Hmac, Mac, NewMac};
use sha2::Sha256;

use salvo_extra::b64::{decode_digest, encode_digest, DIGEST_B64_LEN};
use salvo_extra::codec::{sign_value, verify_value, VerifyError};
use salvo_extra::keys::{ConfigError, SigningKey, SigningKeySet};

const SECRET_A: &[u8] = b"secretabsecretabsecretabsecretabsecretabsecretabsecretabsecretab";
const SECRET_B: &[u8] = b"otherkeyotherkeyotherkeyotherkeyotherkeyotherkeyotherkeyotherkey";
const SECRET_C: &[u8] = b"thirdkeythirdkeythirdkeythirdkeythirdkeythirdkeythirdkeythirdkey";

fn key(secret: &[u8]) -> SigningKey {
    SigningKey::from_secret(secret).unwrap()
}

fn key_set(secret: &[u8], fallbacks: &[&[u8]]) -> SigningKeySet {
    let fb: Vec<Vec<u8>> = fallbacks.iter().map(|s| s.to_vec()).collect();
    SigningKeySet::from_secrets(secret, &fb).unwrap()
}

// The base64 digest prefix agrees with the reference implementation.
#[test]
fn test_b64_matches_reference() {
    let mut d = [0u8; 32];
    for i in 0..32 {
        d[i] = (i as u8).wrapping_mul(37).wrapping_add(11);
    }
    let ours = encode_digest(&d);
    let reference = base64::encode(&d);
    assert_eq!(ours, reference.as_bytes().to_vec());
    assert_eq!(ours.len(), DIGEST_B64_LEN);
    let back = decode_digest(&ours).unwrap();
    assert_eq!(back, d.to_vec());
    assert_eq!(base64::decode(&reference).unwrap(), back);
}

// Exact values of the encoding: 32 zero bytes are 43 'A's and one '=';
// a leading 0xFF byte starts the encoding with "/w".
#[test]
fn test_b64_exact_values() {
    let zero = [0u8; 32];
    let mut expected = vec![b'A'; 43];
    expected.push(b'=');
    assert_eq!(encode_digest(&zero), expected);

    let mut d = [0u8; 32];
    d[0] = 0xFF;
    let enc = encode_digest(&d);
    assert_eq!(&enc[..4], b"/wAA");
    assert_eq!(decode_digest(&enc).unwrap(), d.to_vec());
}

#[test]
fn test_b64_rejects_bad_input() {
    assert!(decode_digest(b"short").is_none());
    assert!(decode_digest(&[b'!'; 44]).is_none());
    let d = [7u8; 32];
    let mut enc = encode_digest(&d);
    enc[43] = b'A'; // padding replaced
    assert!(decode_digest(&enc).is_none());
}

// The signed wire form is base64(HMAC-SHA-256(key, value)) || value,
// checked against the MAC computed directly with the outside crates.
#[test]
fn test_sign_matches_reference_mac() {
    let k = key(SECRET_A);
    let value = b"the quick brown fox";
    let signed = sign_value(&k, value);

    let mut mac = Hmac::<Sha256>::new_from_slice(&SECRET_A[..32]).unwrap();
    mac.update(value);
    let tag = mac.finalize().into_bytes();
    let mut expected = base64::encode(&tag).into_bytes();
    expected.extend_from_slice(value);
    assert_eq!(signed, expected);
}

// Round trip under the primary key: verify(sign(v, k), {k}) == v.
#[test]
fn test_sign_verify_round_trip() {
    let keys = key_set(SECRET_A, &[]);
    let primary = key(SECRET_A);
    for value in [&b""[..], b"x", b"some-session-token", &[0u8, 255, 1, 2]] {
        let signed = sign_value(&primary, value);
        let got = verify_value(&signed, &keys).unwrap();
        assert_eq!(got, value.to_vec());
    }
}

// A value signed under a fallback key verifies while that key is in the
// set, and fails once it is removed.
#[test]
fn test_fallback_key_verification() {
    let old_key = key(SECRET_B);
    let value = b"rotated-session";
    let signed = sign_value(&old_key, value);

    let with_fallback = key_set(SECRET_A, &[SECRET_B]);
    assert_eq!(verify_value(&signed, &with_fallback).unwrap(), value.to_vec());

    let without_fallback = key_set(SECRET_A, &[SECRET_C]);
    assert_eq!(
        verify_value(&signed, &without_fallback).unwrap_err(),
        VerifyError::SignatureMismatch
    );
}

// Anything shorter than the digest prefix fails as malformed, without
// panicking, whatever the bytes.
#[test]
fn test_short_values_malformed() {
    let keys = key_set(SECRET_A, &[]);
    for len in 0..DIGEST_B64_LEN {
        let v = vec![b'A'; len];
        assert_eq!(verify_value(&v, &keys).unwrap_err(), VerifyError::Malformed);
    }
}

// A prefix that is not base64 fails as malformed even at full length.
#[test]
fn test_bad_prefix_malformed() {
    let keys = key_set(SECRET_A, &[]);
    let mut v = vec![b'~'; 44];
    v.extend_from_slice(b"payload");
    assert_eq!(verify_value(&v, &keys).unwrap_err(), VerifyError::Malformed);
}

// Tampering with any single byte of the digest or the raw portion makes
// verification fail: no false positive anywhere.
#[test]
fn test_single_byte_tamper_fails() {
    let keys = key_set(SECRET_A, &[]);
    let k = key(SECRET_A);
    let value = b"session-identifier-123";
    let signed = sign_value(&k, value);
    assert!(verify_value(&signed, &keys).is_ok());
    for i in 0..signed.len() {
        let mut tampered = signed.clone();
        tampered[i] ^= 0x01;
        assert!(
            verify_value(&tampered, &keys).is_err(),
            "flipping byte {} went undetected",
            i
        );
    }
}

// Construction fails exactly on a secret shorter than 64 bytes.
#[test]
fn test_key_length_rules() {
    assert!(matches!(
        SigningKey::from_secret(b"too short"),
        Err(ConfigError::InvalidKeyLength)
    ));
    assert!(matches!(
        SigningKey::from_secret(&SECRET_A[..63]),
        Err(ConfigError::InvalidKeyLength)
    ));
    assert!(SigningKey::from_secret(SECRET_A).is_ok());
    let short_fallback: Vec<Vec<u8>> = vec![b"short".to_vec()];
    assert!(matches!(
        SigningKeySet::from_secrets(SECRET_A, &short_fallback),
        Err(ConfigError::InvalidKeyLength)
    ));
}
