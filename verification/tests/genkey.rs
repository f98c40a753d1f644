use rcli::{genpass_process, process_gen_key, process_sign, GenKey, SignFormat};

fn is_upper(b: u8) -> bool {
    (65..=90).contains(&b) && b != 74 && b != 79 && b != 88
}

fn is_lower(b: u8) -> bool {
    (97..=122).contains(&b) && b != 106 && b != 108 && b != 120
}

fn is_digit(b: u8) -> bool {
    (49..=57).contains(&b)
}

fn is_symbol(b: u8) -> bool {
    b"!@#$%^&*".contains(&b)
}

#[test]
fn generated_key_is_32_bytes_with_all_classes() {
    let key = process_gen_key();
    assert_eq!(key.len(), 32);
    assert!(key.iter().any(|&b| is_upper(b)));
    assert!(key.iter().any(|&b| is_lower(b)));
    assert!(key.iter().any(|&b| is_digit(b)));
    assert!(key.iter().any(|&b| is_symbol(b)));
    assert!(key
        .iter()
        .all(|&b| is_upper(b) || is_lower(b) || is_digit(b) || is_symbol(b)));
}

#[test]
fn generated_key_signs_directly() {
    let key = process_gen_key();
    let sig = process_sign(b"keyed with fresh material", &key, SignFormat::Blake3).unwrap();
    assert_eq!(sig.len(), 32);
}

#[test]
fn password_has_requested_length_and_classes() {
    let pwd = genpass_process(16, false, false, false, false);
    assert_eq!(pwd.len(), 16);
    assert!(pwd.iter().any(|&b| is_upper(b)));
    assert!(pwd.iter().any(|&b| is_lower(b)));
    assert!(pwd.iter().any(|&b| is_digit(b)));
    assert!(pwd.iter().any(|&b| is_symbol(b)));
}

#[test]
fn disabled_classes_never_appear() {
    let pwd = genpass_process(40, true, false, true, true);
    assert_eq!(pwd.len(), 40);
    assert!(pwd.iter().all(|&b| is_lower(b)));
}

#[test]
fn minimal_length_equals_class_count() {
    let pwd = genpass_process(2, true, false, false, true);
    assert_eq!(pwd.len(), 2);
    assert!(pwd.iter().any(|&b| is_lower(b)));
    assert!(pwd.iter().any(|&b| is_digit(b)));
}

#[test]
fn all_classes_disabled_gives_only_the_empty_password() {
    assert_eq!(genpass_process(0, true, true, true, true), Vec::<u8>::new());
}

#[test]
fn two_generated_keys_differ() {
    assert_ne!(process_gen_key(), process_gen_key());
}

#[test]
fn gen_key_destination_keeps_its_path() {
    let sink = GenKey::new("key.bin");
    assert_eq!(sink.path, "key.bin");
}
