use rcli::{process_sign, process_verify, Blake3, Ed25519, SignFormat, TextError};

const KEY: &[u8] = b"01234567890123456789012345678901";

#[test]
fn blake3_sign_is_deterministic_32_bytes() {
    let msg = b"hello world";
    let first = process_sign(msg, KEY, SignFormat::Blake3).unwrap();
    let second = process_sign(msg, KEY, SignFormat::Blake3).unwrap();
    assert_eq!(first.len(), 32);
    assert_eq!(first, second);
}

#[test]
fn blake3_sign_matches_keyed_hash() {
    let msg = b"hello world";
    let sig = process_sign(msg, KEY, SignFormat::Blake3).unwrap();
    let mut key_arr = [0u8; 32];
    key_arr.copy_from_slice(KEY);
    let expected = blake3::keyed_hash(&key_arr, msg);
    assert_eq!(sig.as_slice(), expected.as_bytes());
}

#[test]
fn blake3_sign_then_verify_succeeds() {
    let msg = b"a message of no particular shape";
    let sig = process_sign(msg, KEY, SignFormat::Blake3).unwrap();
    let ok = process_verify(msg, KEY, SignFormat::Blake3, &sig).unwrap();
    assert!(ok);
}

#[test]
fn ed25519_sign_then_verify_succeeds() {
    let msg = b"a message of no particular shape";
    let sig = process_sign(msg, KEY, SignFormat::Ed25519).unwrap();
    assert_eq!(sig.len(), 64);
    let ok = process_verify(msg, KEY, SignFormat::Ed25519, &sig).unwrap();
    assert!(ok);
}

#[test]
fn ed25519_sign_accepted_by_reference_implementation() {
    let msg = b"cross-checked against the scheme itself";
    let sig = process_sign(msg, KEY, SignFormat::Ed25519).unwrap();
    let mut seed = [0u8; 32];
    seed.copy_from_slice(KEY);
    let verifying_key = ed25519_dalek::SigningKey::from_bytes(&seed).verifying_key();
    let mut sig_arr = [0u8; 64];
    sig_arr.copy_from_slice(&sig);
    let signature = ed25519_dalek::Signature::from_bytes(&sig_arr);
    assert!(verifying_key.verify_strict(msg, &signature).is_ok());
}

#[test]
fn blake3_altered_signature_is_rejected_not_an_error() {
    let msg = b"hello world";
    let mut sig = process_sign(msg, KEY, SignFormat::Blake3).unwrap();
    sig[0] ^= 0x01;
    let ok = process_verify(msg, KEY, SignFormat::Blake3, &sig).unwrap();
    assert!(!ok);
}

#[test]
fn ed25519_altered_signature_is_rejected_not_an_error() {
    let msg = b"hello world";
    let mut sig = process_sign(msg, KEY, SignFormat::Ed25519).unwrap();
    sig[1] ^= 0x80;
    let ok = process_verify(msg, KEY, SignFormat::Ed25519, &sig).unwrap();
    assert!(!ok);
}

#[test]
fn wrong_signature_length_is_an_error() {
    let msg = b"hello world";
    let short = vec![0u8; 31];
    assert_eq!(
        process_verify(msg, KEY, SignFormat::Blake3, &short),
        Err(TextError::InvalidSignatureLength)
    );
    let long = vec![0u8; 63];
    assert_eq!(
        process_verify(msg, KEY, SignFormat::Ed25519, &long),
        Err(TextError::InvalidSignatureLength)
    );
}

#[test]
fn short_key_fails_signing_and_verifying() {
    let msg = b"hello world";
    let short_key = b"0123456789012345678901234567890";
    assert_eq!(
        process_sign(msg, short_key, SignFormat::Blake3),
        Err(TextError::KeyTooShort)
    );
    assert_eq!(
        process_sign(msg, short_key, SignFormat::Ed25519),
        Err(TextError::KeyTooShort)
    );
    let sig = vec![0u8; 32];
    assert_eq!(
        process_verify(msg, short_key, SignFormat::Blake3, &sig),
        Err(TextError::KeyTooShort)
    );
}

#[test]
fn long_key_material_uses_first_32_bytes() {
    let msg = b"prefix keyed";
    let mut long_key = KEY.to_vec();
    long_key.extend_from_slice(b"trailing bytes that are ignored");
    let from_long = process_sign(msg, &long_key, SignFormat::Blake3).unwrap();
    let from_exact = process_sign(msg, KEY, SignFormat::Blake3).unwrap();
    assert_eq!(from_long, from_exact);
}

#[test]
fn backends_agree_with_facade() {
    let msg = b"same digest through either door";
    let backend = Blake3::try_new(KEY).unwrap();
    assert_eq!(
        backend.sign(msg),
        process_sign(msg, KEY, SignFormat::Blake3).unwrap()
    );
    let backend = Ed25519::try_new(KEY).unwrap();
    assert_eq!(
        backend.sign(msg),
        process_sign(msg, KEY, SignFormat::Ed25519).unwrap()
    );
}

#[test]
fn empty_message_signs_and_verifies() {
    let sig = process_sign(b"", KEY, SignFormat::Blake3).unwrap();
    assert_eq!(sig.len(), 32);
    assert!(process_verify(b"", KEY, SignFormat::Blake3, &sig).unwrap());
    let sig = process_sign(b"", KEY, SignFormat::Ed25519).unwrap();
    assert!(process_verify(b"", KEY, SignFormat::Ed25519, &sig).unwrap());
}

#[test]
fn sign_format_tags_parse_and_print() {
    assert!(matches!(SignFormat::from_str("blake3"), Ok(SignFormat::Blake3)));
    assert!(matches!(SignFormat::from_str("ed25519"), Ok(SignFormat::Ed25519)));
    assert!(matches!(
        SignFormat::from_str("hmac"),
        Err(TextError::UnknownFormat)
    ));
    assert_eq!(SignFormat::Blake3.as_str(), "blake3");
    assert_eq!(SignFormat::Ed25519.as_str(), "ed25519");
}
