use rcli::{process_text_decrype, process_text_encrypt, ChaCha20Poly, TextError};

const KEY: &[u8] = b"01234567890123456789012345678901";

fn b64u_decode(part: &[u8]) -> Vec<u8> {
    base64::Engine::decode(&base64::engine::general_purpose::URL_SAFE_NO_PAD, part).unwrap()
}

fn b64u_encode(raw: &[u8]) -> Vec<u8> {
    base64::Engine::encode(&base64::engine::general_purpose::URL_SAFE_NO_PAD, raw).into_bytes()
}

fn split_envelope(env: &[u8]) -> (Vec<u8>, Vec<u8>) {
    let sep = env.iter().position(|&b| b == b'|').expect("envelope has a separator");
    (env[..sep].to_vec(), env[sep + 1..].to_vec())
}

#[test]
fn round_trip_recovers_trimmed_plaintext() {
    let env = process_text_encrypt(KEY, b"secret message\n").unwrap();
    let plain = process_text_decrype(KEY, &env).unwrap();
    assert_eq!(plain, b"secret message".to_vec());
}

#[test]
fn two_encryptions_differ_but_both_decrypt() {
    let first = process_text_encrypt(KEY, b"secret message\n").unwrap();
    let second = process_text_encrypt(KEY, b"secret message\n").unwrap();
    assert_ne!(first, second);
    assert_eq!(process_text_decrype(KEY, &first).unwrap(), b"secret message".to_vec());
    assert_eq!(process_text_decrype(KEY, &second).unwrap(), b"secret message".to_vec());
}

#[test]
fn envelope_halves_are_base64_of_ciphertext_and_nonce() {
    let msg = b"fourteen bytes";
    let env = process_text_encrypt(KEY, msg).unwrap();
    let (ct_part, nonce_part) = split_envelope(&env);
    let ct = b64u_decode(&ct_part);
    let nonce = b64u_decode(&nonce_part);
    assert_eq!(ct.len(), msg.len() + 16);
    assert_eq!(nonce.len(), 12);
}

#[test]
fn tampered_ciphertext_fails_authentication() {
    let env = process_text_encrypt(KEY, b"do not touch").unwrap();
    let (ct_part, nonce_part) = split_envelope(&env);
    let mut ct = b64u_decode(&ct_part);
    for bit in 0..8 {
        let mut altered_ct = ct.clone();
        altered_ct[0] ^= 1u8 << bit;
        let mut tampered = b64u_encode(&altered_ct);
        tampered.push(b'|');
        tampered.extend_from_slice(&nonce_part);
        assert_eq!(
            process_text_decrype(KEY, &tampered),
            Err(TextError::AuthenticationFailed)
        );
    }
    let last = ct.len() - 1;
    ct[last] ^= 0x40;
    let mut tampered = b64u_encode(&ct);
    tampered.push(b'|');
    tampered.extend_from_slice(&nonce_part);
    assert_eq!(
        process_text_decrype(KEY, &tampered),
        Err(TextError::AuthenticationFailed)
    );
}

#[test]
fn tampered_nonce_fails_authentication() {
    let env = process_text_encrypt(KEY, b"do not touch").unwrap();
    let (ct_part, nonce_part) = split_envelope(&env);
    let mut nonce = b64u_decode(&nonce_part);
    for bit in 0..8 {
        let mut altered_nonce = nonce.clone();
        altered_nonce[5] ^= 1u8 << bit;
        let mut tampered = ct_part.clone();
        tampered.push(b'|');
        tampered.extend_from_slice(&b64u_encode(&altered_nonce));
        assert_eq!(
            process_text_decrype(KEY, &tampered),
            Err(TextError::AuthenticationFailed)
        );
    }
    nonce[0] = nonce[0].wrapping_add(1);
    let mut tampered = ct_part;
    tampered.push(b'|');
    tampered.extend_from_slice(&b64u_encode(&nonce));
    assert_eq!(
        process_text_decrype(KEY, &tampered),
        Err(TextError::AuthenticationFailed)
    );
}

#[test]
fn wrong_key_fails_authentication() {
    let env = process_text_encrypt(KEY, b"keyed to one key only").unwrap();
    let other_key = b"10234567890123456789012345678901";
    assert_eq!(
        process_text_decrype(other_key, &env),
        Err(TextError::AuthenticationFailed)
    );
}

#[test]
fn envelope_without_separator_is_malformed() {
    assert_eq!(
        process_text_decrype(KEY, b"bm8gc2VwYXJhdG9yIGhlcmU"),
        Err(TextError::MalformedEnvelope)
    );
}

#[test]
fn envelope_with_invalid_base64_is_malformed() {
    assert_eq!(
        process_text_decrype(KEY, b"not*base64!|AAAAAAAAAAAAAAAA"),
        Err(TextError::MalformedEnvelope)
    );
    let env = process_text_encrypt(KEY, b"good half").unwrap();
    let (ct_part, _) = split_envelope(&env);
    let mut bad_nonce = ct_part;
    bad_nonce.push(b'|');
    bad_nonce.extend_from_slice(b"====");
    assert_eq!(
        process_text_decrype(KEY, &bad_nonce),
        Err(TextError::MalformedEnvelope)
    );
}

#[test]
fn envelope_with_wrong_nonce_size_is_malformed() {
    let env = process_text_encrypt(KEY, b"eleven byte nonce below").unwrap();
    let (ct_part, _) = split_envelope(&env);
    let mut short_nonce = ct_part;
    short_nonce.push(b'|');
    short_nonce.extend_from_slice(&b64u_encode(&[0u8; 11]));
    assert_eq!(
        process_text_decrype(KEY, &short_nonce),
        Err(TextError::MalformedEnvelope)
    );
}

#[test]
fn short_key_fails_both_directions() {
    let short_key = &KEY[..31];
    assert_eq!(
        process_text_encrypt(short_key, b"anything"),
        Err(TextError::KeyTooShort)
    );
    assert_eq!(
        process_text_decrype(short_key, b"QUJD|QUJD"),
        Err(TextError::KeyTooShort)
    );
}

#[test]
fn backend_agrees_with_facade() {
    let backend = ChaCha20Poly::try_new(KEY).unwrap();
    let env = backend.encrypt(b"  padded with spaces  ").unwrap();
    assert_eq!(backend.decrypt(&env).unwrap(), b"padded with spaces".to_vec());
    assert_eq!(
        process_text_decrype(KEY, &env).unwrap(),
        b"padded with spaces".to_vec()
    );
}

#[test]
fn whitespace_only_input_encrypts_to_empty_plaintext() {
    let env = process_text_encrypt(KEY, b" \t\r\n ").unwrap();
    assert_eq!(process_text_decrype(KEY, &env).unwrap(), Vec::<u8>::new());
}
