use rcli::{
    bytes_eq, find_byte, key_from_bytes, parse_exp, parse_exp_string, trim_bytes, Base64Format,
    Ofmt, TextError,
};

#[test]
fn expiry_units_convert_to_seconds() {
    assert_eq!(parse_exp_string(b"90s"), Some(90));
    assert_eq!(parse_exp_string(b"10m"), Some(600));
    assert_eq!(parse_exp_string(b"2h"), Some(7200));
    assert_eq!(parse_exp_string(b"1d"), Some(86400));
}

#[test]
fn expiry_units_are_case_insensitive() {
    assert_eq!(parse_exp_string(b"90S"), Some(90));
    assert_eq!(parse_exp_string(b"10M"), Some(600));
    assert_eq!(parse_exp_string(b"2H"), Some(7200));
    assert_eq!(parse_exp_string(b"3D"), Some(259200));
}

#[test]
fn malformed_expiry_strings_are_rejected() {
    assert_eq!(parse_exp_string(b""), None);
    assert_eq!(parse_exp_string(b"d"), None);
    assert_eq!(parse_exp_string(b"15"), None);
    assert_eq!(parse_exp_string(b"5x"), None);
    assert_eq!(parse_exp_string(b"5dd"), None);
    assert_eq!(parse_exp_string(b"-5d"), None);
    assert_eq!(parse_exp_string(b"5 d"), None);
}

#[test]
fn overflowing_expiry_is_rejected() {
    assert_eq!(parse_exp_string(b"99999999999999999999s"), None);
    assert_eq!(parse_exp_string(b"300000000000000000d"), None);
}

#[test]
fn expiry_is_added_to_the_clock() {
    assert_eq!(parse_exp(100, b"1m"), Some(160));
    assert_eq!(parse_exp(0, b"1d"), Some(86400));
    assert_eq!(parse_exp(u64::MAX, b"1s"), None);
    assert_eq!(parse_exp(7, b"nonsense"), None);
}

#[test]
fn key_material_is_cut_to_32_bytes() {
    let exact: Vec<u8> = (0..32).collect();
    assert_eq!(key_from_bytes(&exact), Ok(exact.clone()));
    let mut longer = exact.clone();
    longer.extend_from_slice(b"extra");
    assert_eq!(key_from_bytes(&longer), Ok(exact));
    let shorter: Vec<u8> = (0..31).collect();
    assert_eq!(key_from_bytes(&shorter), Err(TextError::KeyTooShort));
}

#[test]
fn trim_removes_surrounding_whitespace_only() {
    assert_eq!(trim_bytes(b"  hello world \r\n"), b"hello world".to_vec());
    assert_eq!(trim_bytes(b"no-edges"), b"no-edges".to_vec());
    assert_eq!(trim_bytes(b" \t\n\r "), Vec::<u8>::new());
    assert_eq!(trim_bytes(b""), Vec::<u8>::new());
    assert_eq!(trim_bytes(b"inner  space"), b"inner  space".to_vec());
}

#[test]
fn byte_helpers_behave() {
    assert!(bytes_eq(b"same", b"same"));
    assert!(!bytes_eq(b"same", b"sane"));
    assert!(!bytes_eq(b"same", b"sam"));
    assert_eq!(find_byte(b"a|b|c", b'|'), Some(1));
    assert_eq!(find_byte(b"abc", b'|'), None);
}

#[test]
fn base64_format_tags_parse_and_print() {
    assert!(matches!(
        Base64Format::from_str("standard"),
        Ok(Base64Format::Standard)
    ));
    assert!(matches!(
        Base64Format::from_str("urlsafe"),
        Ok(Base64Format::Urlsafe)
    ));
    assert!(matches!(
        Base64Format::from_str("mime"),
        Err(TextError::UnknownFormat)
    ));
    assert_eq!(Base64Format::Standard.as_str(), "standard");
    assert_eq!(Base64Format::Urlsafe.as_str(), "urlsafe");
}

#[test]
fn output_format_tags_parse_and_print() {
    assert_eq!(Ofmt::from_str("json"), Ok(Ofmt::Json));
    assert_eq!(Ofmt::from_str("yaml"), Ok(Ofmt::Yaml));
    assert_eq!(Ofmt::from_str("toml"), Ok(Ofmt::Toml));
    assert_eq!(Ofmt::from_str("xml"), Err(TextError::UnknownFormat));
    assert_eq!(Ofmt::Json.as_str(), "json");
    assert_eq!(Ofmt::Yaml.as_str(), "yaml");
    assert_eq!(Ofmt::Toml.as_str(), "toml");
}

#[test]
fn path_arguments_follow_the_probe() {
    assert_eq!(
        rcli::parse_file("data.txt", true),
        Ok("data.txt".to_string())
    );
    assert_eq!(rcli::parse_file("-", false), Ok("-".to_string()));
    assert_eq!(
        rcli::parse_file("missing.txt", false),
        Err("File does not exist".to_string())
    );
    assert_eq!(rcli::parse_out("out.json", false), Ok("out.json".to_string()));
    assert_eq!(rcli::parse_out("somedir", true), Err("Path is dir".to_string()));
}

#[test]
fn error_messages_name_their_cause() {
    assert!(TextError::KeyTooShort.message().contains("key"));
    assert!(TextError::MalformedEnvelope.message().contains("envelope"));
    assert!(TextError::AuthenticationFailed
        .message()
        .contains("tampered"));
}
