use vstd::prelude::*;

use crate::b64::{b64u_decode, b64u_encode, b64u_encoding, is_b64u_char, SEPARATOR};
use crate::bytes::{find_byte, lemma_spec_trim_len, spec_trim, trim_bytes};
use crate::errors::TextError;
use crate::keys::{key_from_bytes, key_to_vec, KEY_LEN};

verus! {

/// Length of the per-message random nonce.
pub const NONCE_LEN: usize = 12;

/// Length of the authentication tag the cipher appends to the ciphertext.
pub const TAG_LEN: usize = 16;

/// Longest plaintext the cipher processes: 64 bytes for each of its
/// 2^32 - 1 keystream blocks. Longer inputs are refused by the primitive.
pub const PLAINTEXT_LIMIT: u64 = 274877906880;

/// The ciphertext (message bytes followed by the authentication tag) that
/// ChaCha20-Poly1305 assigns to `msg` under `key` and `nonce`.
pub uninterp spec fn chacha_sealed(key: Seq<u8>, nonce: Seq<u8>, msg: Seq<u8>) -> Seq<u8>;

/// Relies on chacha20poly1305's `Aead::encrypt`: sealing is a pure function
/// of key, nonce and message, returns the message length plus the tag
/// length, and succeeds for every message below the block limit.
#[verifier::external_body]
fn chacha_encrypt_raw(key: &[u8], nonce: &[u8], msg: &[u8]) -> (r: Vec<u8>)
    requires
        key@.len() == KEY_LEN,
        nonce@.len() == NONCE_LEN,
        msg@.len() < PLAINTEXT_LIMIT,
    ensures
        r@ == chacha_sealed(key@, nonce@, msg@),
        r@.len() == msg@.len() + TAG_LEN,
{
    let cipher = <chacha20poly1305::ChaCha20Poly1305 as chacha20poly1305::KeyInit>::new(
        chacha20poly1305::Key::from_slice(key),
    );
    chacha20poly1305::aead::Aead::encrypt(
        &cipher,
        chacha20poly1305::Nonce::from_slice(nonce),
        msg,
    ).unwrap()
}

#[verifier::external_type_specification]
#[verifier::external_body]
pub struct ExAeadError(chacha20poly1305::Error);

/// Relies on chacha20poly1305's `Aead::decrypt`: it succeeds exactly on
/// genuine ciphertexts — those the sealing of some message under the same
/// key and nonce produces — and on them returns that message; on everything
/// else the authentication tag check fails.
#[verifier::external_body]
fn chacha_decrypt_raw(key: &[u8], nonce: &[u8], ct: &[u8]) -> (r: Result<
    Vec<u8>,
    chacha20poly1305::Error,
>)
    requires
        key@.len() == KEY_LEN,
        nonce@.len() == NONCE_LEN,
    ensures
        r matches Ok(p) ==> ct@ == chacha_sealed(key@, nonce@, p@) && p@.len() + TAG_LEN
            == ct@.len(),
        r matches Ok(p) ==> forall|m: Seq<u8>| ct@ == chacha_sealed(key@, nonce@, m) ==> m == p@,
        r is Err ==> forall|m: Seq<u8>|
            m.len() < PLAINTEXT_LIMIT && m.len() + TAG_LEN == ct@.len() ==> ct@ != chacha_sealed(
                key@,
                nonce@,
                m,
            ),
{
    let cipher = <chacha20poly1305::ChaCha20Poly1305 as chacha20poly1305::KeyInit>::new(
        chacha20poly1305::Key::from_slice(key),
    );
    chacha20poly1305::aead::Aead::decrypt(&cipher, chacha20poly1305::Nonce::from_slice(nonce), ct)
}

/// Relies on `AeadCore::generate_nonce` with the operating system's secure
/// random source: a fresh 12-byte nonce. Nothing is assumed of its value.
#[verifier::external_body]
fn generate_nonce() -> (r: Vec<u8>)
    ensures
        r@.len() == NONCE_LEN,
{
    <chacha20poly1305::ChaCha20Poly1305 as chacha20poly1305::AeadCore>::generate_nonce(
        &mut rand::rngs::OsRng,
    ).to_vec()
}

/// No byte of `s` is the envelope separator.
pub open spec fn delim_free(s: Seq<u8>) -> bool {
    forall|i: int| 0 <= i < s.len() ==> s[i] != SEPARATOR
}

/// The envelope encoding of a ciphertext and its nonce:
/// `<base64 ciphertext> | <base64 nonce>`.
pub open spec fn spec_envelope(ct: Seq<u8>, nonce: Seq<u8>) -> Seq<u8> {
    b64u_encoding(ct) + seq![SEPARATOR] + b64u_encoding(nonce)
}

/// Every byte of `s` is a base64 character or the separator: what a
/// printable envelope is made of.
pub open spec fn printable_envelope(s: Seq<u8>) -> bool {
    forall|i: int| 0 <= i < s.len() ==> (is_b64u_char(s[i]) || s[i] == SEPARATOR)
}

/// `env` has the envelope's wire shape: the base64 image of some byte
/// string, free of the separator, then the separator, then the base64 image
/// of some 12-byte nonce. Whether the first half seals anything under any
/// key is a separate question.
pub open spec fn spec_structured_envelope(env: Seq<u8>) -> bool {
    exists|c: Seq<u8>, n: Seq<u8>|
        #![trigger spec_envelope(c, n)]
        {
            &&& n.len() == NONCE_LEN
            &&& env == spec_envelope(c, n)
            &&& delim_free(b64u_encoding(c))
        }
}

/// `env` is the envelope that sealing the trimmed `msg` under `key` with
/// `nonce` produces, together with the structural facts the encoder
/// establishes about it.
pub open spec fn spec_sealed_envelope(
    key: Seq<u8>,
    msg: Seq<u8>,
    nonce: Seq<u8>,
    env: Seq<u8>,
) -> bool {
    let t = spec_trim(msg);
    let c = chacha_sealed(key, nonce, t);
    &&& env == spec_envelope(c, nonce)
    &&& delim_free(b64u_encoding(c))
    &&& delim_free(b64u_encoding(nonce))
    &&& printable_envelope(env)
    &&& c.len() == t.len() + TAG_LEN
    &&& t.len() < PLAINTEXT_LIMIT
}

/// In an envelope whose first half is free of the separator, the first
/// separator byte sits exactly between the two halves, so splitting there
/// recovers them.
proof fn lemma_first_separator_splits(env: Seq<u8>, c: Seq<u8>, n: Seq<u8>, idx: int)
    requires
        env == spec_envelope(c, n),
        delim_free(b64u_encoding(c)),
        0 <= idx < env.len(),
        env[idx] == SEPARATOR,
        forall|j: int| 0 <= j < idx ==> env[j] != SEPARATOR,
    ensures
        idx == b64u_encoding(c).len(),
        env.subrange(0, idx) == b64u_encoding(c),
        env.subrange(idx + 1, env.len() as int) == b64u_encoding(n),
{
    let cl = b64u_encoding(c).len() as int;
    assert(env[cl] == SEPARATOR);
    if idx < cl {
        assert(env[idx] == b64u_encoding(c)[idx]);
        assert(false);
    }
    if idx > cl {
        assert(false);
    }
    assert(env.subrange(0, idx) =~= b64u_encoding(c));
    assert(env.subrange(idx + 1, env.len() as int) =~= b64u_encoding(n));
}

/// The authenticated symmetric cipher backend: a 32-byte key for
/// ChaCha20-Poly1305 with a fresh random nonce for every message.
pub struct ChaCha20Poly {
    key: Vec<u8>,
}

impl ChaCha20Poly {
    /// The key this backend was constructed with.
    pub closed spec fn key_view(&self) -> Seq<u8> {
        self.key@
    }

    /// A backend is well formed when it holds exactly `KEY_LEN` key bytes.
    pub open spec fn wf(&self) -> bool {
        self.key_view().len() == KEY_LEN
    }

    pub fn new(key: [u8; 32]) -> (r: Self)
        ensures
            r.wf(),
            r.key_view() == key@,
    {
        ChaCha20Poly { key: key_to_vec(key) }
    }

    /// Build a backend from raw key material: the first `KEY_LEN` bytes are
    /// the key; fewer are rejected.
    pub fn try_new(key: &[u8]) -> (r: Result<Self, TextError>)
        ensures
            key@.len() >= KEY_LEN ==> (r matches Ok(b) && b.wf() && b.key_view() == key@.subrange(
                0,
                KEY_LEN as int,
            )),
            key@.len() < KEY_LEN ==> (r matches Err(e) && e is KeyTooShort),
    {
        let k = key_from_bytes(key)?;
        Ok(ChaCha20Poly { key: k })
    }

    /// Encrypt `msg`: trim surrounding ASCII whitespace (so trailing
    /// newlines from text input never become part of the ciphertext), seal
    /// the result under a fresh random nonce, and envelope ciphertext and
    /// nonce as one printable byte string.
    pub fn encrypt(&self, msg: &[u8]) -> (r: Result<Vec<u8>, TextError>)
        requires
            self.wf(),
            msg@.len() < PLAINTEXT_LIMIT,
        ensures
            r matches Ok(env) && (exists|n: Seq<u8>|
                n.len() == NONCE_LEN && spec_sealed_envelope(self.key_view(), msg@, n, env@)),
    {
        let t = trim_bytes(msg);
        proof {
            lemma_spec_trim_len(msg@);
        }
        let nonce = generate_nonce();
        let ct = chacha_encrypt_raw(self.key.as_slice(), nonce.as_slice(), t.as_slice());
        let mut env = b64u_encode(ct.as_slice());
        let mut nonce_enc = b64u_encode(nonce.as_slice());
        env.push(SEPARATOR);
        env.append(&mut nonce_enc);
        proof {
            assert(env@ =~= spec_envelope(ct@, nonce@));
            assert(delim_free(b64u_encoding(ct@))) by {
                assert forall|i: int|
                    0 <= i < b64u_encoding(ct@).len() implies b64u_encoding(ct@)[i]
                    != SEPARATOR by {
                    assert(is_b64u_char(b64u_encoding(ct@)[i]));
                }
            }
            assert(delim_free(b64u_encoding(nonce@))) by {
                assert forall|i: int|
                    0 <= i < b64u_encoding(nonce@).len() implies b64u_encoding(nonce@)[i]
                    != SEPARATOR by {
                    assert(is_b64u_char(b64u_encoding(nonce@)[i]));
                }
            }
            assert(printable_envelope(env@)) by {
                assert forall|i: int|
                    0 <= i < env@.len() implies (is_b64u_char(env@[i]) || env@[i]
                    == SEPARATOR) by {
                    let cl = b64u_encoding(ct@).len() as int;
                    if i < cl {
                        assert(env@[i] == b64u_encoding(ct@)[i]);
                    } else if i > cl {
                        assert(env@[i] == b64u_encoding(nonce@)[i - cl - 1]);
                    }
                }
            }
            assert(spec_sealed_envelope(self.key_view(), msg@, nonce@, env@));
        }
        Ok(env)
    }

    /// Decrypt an envelope: split it at the separator, decode both halves,
    /// and open the ciphertext under the recovered nonce. The error kind is
    /// part of the contract: an envelope without the wire shape — missing
    /// separator, undecodable half, wrong-size nonce — fails as malformed,
    /// and one with the wire shape whose tag check fails is an
    /// authentication failure. Every envelope the encryption of a message
    /// produces decrypts back to that message's trimmed bytes.
    pub fn decrypt(&self, env: &[u8]) -> (r: Result<Vec<u8>, TextError>)
        requires
            self.wf(),
        ensures
            forall|m: Seq<u8>, n: Seq<u8>|
                n.len() == NONCE_LEN && spec_sealed_envelope(self.key_view(), m, n, env@) ==> (
                r matches Ok(p) && p@ == spec_trim(m)),
            r matches Ok(p) ==> exists|n: Seq<u8>|
                n.len() == NONCE_LEN && env@ == spec_envelope(
                    chacha_sealed(self.key_view(), n, p@),
                    n,
                ),
            delim_free(env@) ==> (r matches Err(e) && e is MalformedEnvelope),
            r matches Err(e) ==> (e is MalformedEnvelope || e is AuthenticationFailed),
            r matches Err(e) && e is MalformedEnvelope ==> !spec_structured_envelope(env@),
            r matches Err(e) && e is AuthenticationFailed ==> spec_structured_envelope(env@),
    {
        let ghost key = self.key_view();
        let idx_opt = find_byte(env, SEPARATOR);
        let idx = match idx_opt {
            Some(i) => i,
            None => {
                proof {
                    if spec_structured_envelope(env@) {
                        let (c, n) = choose|c: Seq<u8>, n: Seq<u8>|
                            {
                                &&& n.len() == NONCE_LEN
                                &&& env@ == spec_envelope(c, n)
                                &&& delim_free(b64u_encoding(c))
                            };
                        assert(env@[b64u_encoding(c).len() as int] == SEPARATOR);
                        assert(false);
                    }
                    assert forall|m: Seq<u8>, n: Seq<u8>|
                        n.len() == NONCE_LEN && spec_sealed_envelope(key, m, n, env@)
                        implies false by {
                        let c = chacha_sealed(key, n, spec_trim(m));
                        assert(env@[b64u_encoding(c).len() as int] == SEPARATOR);
                    }
                }
                return Err(TextError::MalformedEnvelope);
            },
        };
        let env_len = env.len();
        assert(idx < env_len);
        let ct_part = &env[0..idx];
        let nonce_part = &env[idx + 1..env_len];
        proof {
            assert forall|m: Seq<u8>, n: Seq<u8>|
                n.len() == NONCE_LEN && spec_sealed_envelope(key, m, n, env@)
                implies ct_part@ == b64u_encoding(chacha_sealed(key, n, spec_trim(m)))
                    && nonce_part@ == b64u_encoding(n) by {
                let c = chacha_sealed(key, n, spec_trim(m));
                let cl = b64u_encoding(c).len() as int;
                assert(env@[cl] == SEPARATOR);
                if idx < cl {
                    assert(env@[idx as int] == b64u_encoding(c)[idx as int]);
                    assert(false);
                }
                if idx > cl {
                    assert(false);
                }
                assert(ct_part@ =~= b64u_encoding(c));
                assert(nonce_part@ =~= b64u_encoding(n));
            }
        }
        let ct = match b64u_decode(ct_part) {
            Ok(v) => v,
            Err(_) => {
                proof {
                    if spec_structured_envelope(env@) {
                        let (c, n) = choose|c: Seq<u8>, n: Seq<u8>|
                            {
                                &&& n.len() == NONCE_LEN
                                &&& env@ == spec_envelope(c, n)
                                &&& delim_free(b64u_encoding(c))
                            };
                        lemma_first_separator_splits(env@, c, n, idx as int);
                        assert(ct_part@ == b64u_encoding(c));
                        assert(false);
                    }
                }
                return Err(TextError::MalformedEnvelope);
            },
        };
        let nonce = match b64u_decode(nonce_part) {
            Ok(v) => v,
            Err(_) => {
                proof {
                    if spec_structured_envelope(env@) {
                        let (c, n) = choose|c: Seq<u8>, n: Seq<u8>|
                            {
                                &&& n.len() == NONCE_LEN
                                &&& env@ == spec_envelope(c, n)
                                &&& delim_free(b64u_encoding(c))
                            };
                        lemma_first_separator_splits(env@, c, n, idx as int);
                        assert(nonce_part@ == b64u_encoding(n));
                        assert(false);
                    }
                }
                return Err(TextError::MalformedEnvelope);
            },
        };
        if nonce.len() != NONCE_LEN {
            proof {
                if spec_structured_envelope(env@) {
                    let (c, n) = choose|c: Seq<u8>, n: Seq<u8>|
                        {
                            &&& n.len() == NONCE_LEN
                            &&& env@ == spec_envelope(c, n)
                            &&& delim_free(b64u_encoding(c))
                        };
                    lemma_first_separator_splits(env@, c, n, idx as int);
                    assert(nonce_part@ == b64u_encoding(n));
                    assert(nonce@ == n);
                    assert(false);
                }
                assert forall|m: Seq<u8>, n: Seq<u8>|
                    n.len() == NONCE_LEN && spec_sealed_envelope(key, m, n, env@)
                    implies false by {
                    assert(nonce@ == n);
                }
            }
            return Err(TextError::MalformedEnvelope);
        }
        match chacha_decrypt_raw(self.key.as_slice(), nonce.as_slice(), ct.as_slice()) {
            Ok(p) => {
                proof {
                    assert(env@ =~= spec_envelope(chacha_sealed(key, nonce@, p@), nonce@));
                }
                Ok(p)
            },
            Err(_) => {
                proof {
                    assert(env@ =~= spec_envelope(ct@, nonce@));
                    assert(delim_free(b64u_encoding(ct@))) by {
                        assert forall|j: int|
                            0 <= j < b64u_encoding(ct@).len() implies b64u_encoding(ct@)[j]
                            != SEPARATOR by {
                            assert(b64u_encoding(ct@)[j] == env@[j]);
                        }
                    }
                    assert(spec_structured_envelope(env@));
                    assert forall|m: Seq<u8>, n: Seq<u8>|
                        n.len() == NONCE_LEN && spec_sealed_envelope(key, m, n, env@)
                        implies false by {
                        let t = spec_trim(m);
                        let c = chacha_sealed(key, n, t);
                        assert(ct@ == c && nonce@ == n);
                        assert(ct@ != chacha_sealed(key, nonce@, t));
                    }
                }
                Err(TextError::AuthenticationFailed)
            },
        }
    }
}

/// Altering the ciphertext half of an envelope while keeping its nonce can
/// never smuggle the original plaintext through: if decryption of the
/// altered ciphertext succeeds at all, what it returns differs from the
/// trimmed original message.
pub proof fn lemma_altered_ciphertext_never_original(
    key: Seq<u8>,
    msg: Seq<u8>,
    nonce: Seq<u8>,
    altered: Seq<u8>,
    p: Seq<u8>,
)
    requires
        altered != chacha_sealed(key, nonce, spec_trim(msg)),
        altered == chacha_sealed(key, nonce, p),
    ensures
        p != spec_trim(msg),
{
}

/// Encrypt `input` with the key formed from the first `KEY_LEN` bytes of
/// `key`, producing a printable envelope of ciphertext and fresh nonce.
pub fn process_text_encrypt(key: &[u8], input: &[u8]) -> (r: Result<Vec<u8>, TextError>)
    requires
        input@.len() < PLAINTEXT_LIMIT,
    ensures
        key@.len() < KEY_LEN ==> (r matches Err(e) && e is KeyTooShort),
        key@.len() >= KEY_LEN ==> (r matches Ok(env) && (exists|n: Seq<u8>|
            n.len() == NONCE_LEN && spec_sealed_envelope(
                key@.subrange(0, KEY_LEN as int),
                input@,
                n,
                env@,
            ))),
{
    let backend = ChaCha20Poly::try_new(key)?;
    backend.encrypt(input)
}

/// Decrypt an envelope with the key formed from the first `KEY_LEN` bytes of
/// `key`, recovering the trimmed plaintext the matching encryption sealed.
/// The error kind is part of the contract, as for the backend's decryption.
pub fn process_text_decrype(key: &[u8], input: &[u8]) -> (r: Result<Vec<u8>, TextError>)
    ensures
        key@.len() < KEY_LEN ==> (r matches Err(e) && e is KeyTooShort),
        key@.len() >= KEY_LEN ==> {
            let k = key@.subrange(0, KEY_LEN as int);
            &&& forall|m: Seq<u8>, n: Seq<u8>|
                n.len() == NONCE_LEN && spec_sealed_envelope(k, m, n, input@) ==> (r matches Ok(p)
                    && p@ == spec_trim(m))
            &&& (r matches Ok(p) ==> exists|n: Seq<u8>|
                n.len() == NONCE_LEN && input@ == spec_envelope(chacha_sealed(k, n, p@), n))
            &&& (delim_free(input@) ==> (r matches Err(e) && e is MalformedEnvelope))
            &&& (r matches Err(e) ==> (e is MalformedEnvelope || e is AuthenticationFailed))
            &&& (r matches Err(e) && e is MalformedEnvelope ==> !spec_structured_envelope(input@))
            &&& (r matches Err(e) && e is AuthenticationFailed ==> spec_structured_envelope(
                input@,
            ))
        },
{
    let backend = ChaCha20Poly::try_new(key)?;
    backend.decrypt(input)
}

} // verus!
