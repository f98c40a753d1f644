//! A command-line toolkit's verified core: a signing and verification layer
//! with a keyed-hash and an asymmetric backend, an authenticated symmetric
//! encryption layer with a per-message random nonce and a printable envelope
//! format, a key loader that shapes raw key material into fixed-size keys,
//! and a random key generator. Cryptographic primitives and the base64
//! alphabet are taken from their own crates behind trusted declarations; the
//! key shaping, the envelope format, the dispatch and every error path are
//! specified and proved here.

mod b64;
mod bytes;
mod cipher;
mod cli;
mod errors;
mod expiry;
mod genpass;
mod keys;
mod signing;
mod utils;

pub use bytes::{
    bytes_eq, find_byte, is_ascii_ws, lemma_spec_trim_len, lemma_trim_back_len,
    lemma_trim_front_len, spec_trim, trim_back, trim_bytes, trim_front,
};
pub use b64::{b64u_encoding, is_b64u_char, SEPARATOR};
pub use cipher::{
    chacha_sealed, delim_free, lemma_altered_ciphertext_never_original, printable_envelope,
    process_text_decrype, process_text_encrypt, spec_envelope, spec_sealed_envelope,
    spec_structured_envelope, ChaCha20Poly, NONCE_LEN, PLAINTEXT_LIMIT, TAG_LEN,
};
pub use cli::{
    Base64Format, BaseDecodeOpt, BaseEncodeOpt, BaseSubcmd, CsvOpt, DecryptOpt, EncryptOpt,
    GenKeyOpt, GenPwdOpt, HttpSubcmd, JwtSignOpt, JwtSubcmd, JwtVerifyOpt, Ofmt, Rcli, ServeOpt,
    SignOpt, SubCmd, TextSubcmd, VerifyOpt,
};
pub use errors::TextError;
pub use expiry::{
    digits_value, is_dec_digit, parse_exp, parse_exp_string, spec_exp_seconds, unit_factor,
    valid_exp_string,
};
pub use genpass::{
    contains_class, genpass_process, in_enabled_classes, is_digit_char, is_lower_char,
    is_symbol_char, is_upper_char, process_gen_key, spec_enabled_count, GenKey,
};
pub use keys::{key_from_bytes, KEY_LEN};
pub use utils::{parse_file, parse_out};
pub use signing::{
    blake3_keyed, ed25519_accepts, ed25519_signature, lemma_keyed_hash_rejects_others,
    lemma_keyed_hash_round_trip, process_sign, process_verify, spec_sig_accepted, spec_sig_len,
    spec_signature, Blake3, Ed25519, SignFormat, BLAKE3_SIG_LEN, ED25519_SIG_LEN,
};
