use vstd::prelude::*;

use crate::bytes::{bytes_eq, str_eq};
use crate::errors::TextError;
use crate::keys::{key_from_bytes, key_to_vec, KEY_LEN};

verus! {

/// Signature length of the keyed-hash backend.
pub const BLAKE3_SIG_LEN: usize = 32;

/// Signature length of the asymmetric signature backend.
pub const ED25519_SIG_LEN: usize = 64;

/// The signing algorithm a caller selects at the command boundary.
#[derive(Debug, Clone, Copy, PartialEq, Eq, Structural)]
pub enum SignFormat {
    Blake3,
    Ed25519,
}

impl SignFormat {
    /// Parse an algorithm tag.
    pub fn from_str(s: &str) -> (r: Result<SignFormat, TextError>)
        ensures
            (r matches Ok(f) && f is Blake3) <==> s@ == "blake3"@,
            (r matches Ok(f) && f is Ed25519) <==> s@ == "ed25519"@,
            r matches Err(e) ==> e is UnknownFormat,
    {
        proof {
            reveal_strlit("blake3");
            reveal_strlit("ed25519");
            assert("blake3"@.len() == 6);
            assert("ed25519"@.len() == 7);
            assert("blake3"@ != "ed25519"@);
        }
        if str_eq(s, "blake3") {
            Ok(SignFormat::Blake3)
        } else if str_eq(s, "ed25519") {
            Ok(SignFormat::Ed25519)
        } else {
            Err(TextError::UnknownFormat)
        }
    }

    /// The tag this algorithm is selected by.
    pub fn as_str(self) -> (r: &'static str)
        ensures
            self is Blake3 ==> r@ == "blake3"@,
            self is Ed25519 ==> r@ == "ed25519"@,
    {
        match self {
            SignFormat::Blake3 => "blake3",
            SignFormat::Ed25519 => "ed25519",
        }
    }
}

/// The 32-byte keyed digest blake3 computes for `key` and `msg`.
pub uninterp spec fn blake3_keyed(key: Seq<u8>, msg: Seq<u8>) -> Seq<u8>;

/// The 64-byte signature the Ed25519 scheme derives from seed `key` for `msg`.
pub uninterp spec fn ed25519_signature(key: Seq<u8>, msg: Seq<u8>) -> Seq<u8>;

/// Whether Ed25519 strict verification accepts `sig` as a signature of `msg`
/// under the key pair derived from seed `key`.
pub uninterp spec fn ed25519_accepts(key: Seq<u8>, msg: Seq<u8>, sig: Seq<u8>) -> bool;

/// Relies on `blake3::keyed_hash`: a pure 32-byte keyed digest of the input,
/// determined by the key and the input alone.
#[verifier::external_body]
fn blake3_keyed_hash(key: &[u8], msg: &[u8]) -> (r: Vec<u8>)
    requires
        key@.len() == KEY_LEN,
    ensures
        r@ == blake3_keyed(key@, msg@),
        r@.len() == BLAKE3_SIG_LEN,
{
    let key_arr: &[u8; 32] = key.try_into().unwrap();
    blake3::keyed_hash(key_arr, msg).as_bytes().to_vec()
}

/// Relies on `ed25519_dalek::SigningKey::sign`: deterministic (RFC 8032)
/// signing, a pure function of the 32-byte seed and the message, returning a
/// 64-byte signature that `verify_strict` accepts under the verifying key
/// derived from the same seed.
#[verifier::external_body]
fn ed25519_sign_bytes(key: &[u8], msg: &[u8]) -> (r: Vec<u8>)
    requires
        key@.len() == KEY_LEN,
    ensures
        r@ == ed25519_signature(key@, msg@),
        r@.len() == ED25519_SIG_LEN,
        ed25519_accepts(key@, msg@, r@),
{
    let seed: &[u8; 32] = key.try_into().unwrap();
    let signing_key = ed25519_dalek::SigningKey::from_bytes(seed);
    ed25519_dalek::Signer::sign(&signing_key, msg).to_bytes().to_vec()
}

/// Relies on `ed25519_dalek::VerifyingKey::verify_strict`: a deterministic
/// check of (public key, message, signature), where the key pair is derived
/// deterministically from the 32-byte seed.
#[verifier::external_body]
fn ed25519_verify_bytes(key: &[u8], msg: &[u8], sig: &[u8]) -> (r: bool)
    requires
        key@.len() == KEY_LEN,
        sig@.len() == ED25519_SIG_LEN,
    ensures
        r == ed25519_accepts(key@, msg@, sig@),
{
    let seed: &[u8; 32] = key.try_into().unwrap();
    let sig_arr: &[u8; 64] = sig.try_into().unwrap();
    let verifying_key = ed25519_dalek::SigningKey::from_bytes(seed).verifying_key();
    let signature = ed25519_dalek::Signature::from_bytes(sig_arr);
    verifying_key.verify_strict(msg, &signature).is_ok()
}

/// The signature length the selected algorithm produces and expects.
pub open spec fn spec_sig_len(format: SignFormat) -> nat {
    match format {
        SignFormat::Blake3 => BLAKE3_SIG_LEN as nat,
        SignFormat::Ed25519 => ED25519_SIG_LEN as nat,
    }
}

/// The signature the selected algorithm computes for `key` and `msg`.
pub open spec fn spec_signature(key: Seq<u8>, msg: Seq<u8>, format: SignFormat) -> Seq<u8> {
    match format {
        SignFormat::Blake3 => blake3_keyed(key, msg),
        SignFormat::Ed25519 => ed25519_signature(key, msg),
    }
}

/// Whether the selected algorithm's verification accepts `sig` for `msg`
/// under `key`. The keyed-hash variant accepts exactly the recomputed digest;
/// the asymmetric variant accepts what strict verification accepts.
pub open spec fn spec_sig_accepted(
    key: Seq<u8>,
    msg: Seq<u8>,
    sig: Seq<u8>,
    format: SignFormat,
) -> bool {
    match format {
        SignFormat::Blake3 => sig == blake3_keyed(key, msg),
        SignFormat::Ed25519 => ed25519_accepts(key, msg, sig),
    }
}

/// The keyed-hash signing backend: a 32-byte key for blake3's keyed mode.
pub struct Blake3 {
    key: Vec<u8>,
}

impl Blake3 {
    /// The key this backend was constructed with.
    pub closed spec fn key_view(&self) -> Seq<u8> {
        self.key@
    }

    /// A backend is well formed when it holds exactly `KEY_LEN` key bytes.
    pub open spec fn wf(&self) -> bool {
        self.key_view().len() == KEY_LEN
    }

    pub fn new(key: [u8; 32]) -> (r: Self)
        ensures
            r.wf(),
            r.key_view() == key@,
    {
        Blake3 { key: key_to_vec(key) }
    }

    /// Build a backend from raw key material: the first `KEY_LEN` bytes are
    /// the key; fewer are rejected.
    pub fn try_new(key: &[u8]) -> (r: Result<Self, TextError>)
        ensures
            key@.len() >= KEY_LEN ==> (r matches Ok(b) && b.wf() && b.key_view() == key@.subrange(
                0,
                KEY_LEN as int,
            )),
            key@.len() < KEY_LEN ==> (r matches Err(e) && e is KeyTooShort),
    {
        let k = key_from_bytes(key)?;
        Ok(Blake3 { key: k })
    }

    /// Compute the deterministic keyed digest of `msg`.
    pub fn sign(&self, msg: &[u8]) -> (sig: Vec<u8>)
        requires
            self.wf(),
        ensures
            sig@ == blake3_keyed(self.key_view(), msg@),
            sig@.len() == BLAKE3_SIG_LEN,
            spec_sig_accepted(self.key_view(), msg@, sig@, SignFormat::Blake3),
    {
        blake3_keyed_hash(self.key.as_slice(), msg)
    }

    /// Recompute the digest of `msg` and compare it byte for byte with `sig`.
    /// A wrong-length signature is caller misuse, not a negative result.
    pub fn verify(&self, msg: &[u8], sig: &[u8]) -> (r: Result<bool, TextError>)
        requires
            self.wf(),
        ensures
            sig@.len() != BLAKE3_SIG_LEN ==> (r matches Err(e) && e is InvalidSignatureLength),
            sig@.len() == BLAKE3_SIG_LEN ==> (r matches Ok(b) && b == spec_sig_accepted(
                self.key_view(),
                msg@,
                sig@,
                SignFormat::Blake3,
            )),
    {
        if sig.len() != BLAKE3_SIG_LEN {
            return Err(TextError::InvalidSignatureLength);
        }
        let expected = blake3_keyed_hash(self.key.as_slice(), msg);
        Ok(bytes_eq(sig, expected.as_slice()))
    }
}

/// The asymmetric signing backend: a 32-byte seed for an Ed25519 key pair.
pub struct Ed25519 {
    key: Vec<u8>,
}

impl Ed25519 {
    /// The seed this backend was constructed with.
    pub closed spec fn key_view(&self) -> Seq<u8> {
        self.key@
    }

    /// A backend is well formed when it holds exactly `KEY_LEN` seed bytes.
    pub open spec fn wf(&self) -> bool {
        self.key_view().len() == KEY_LEN
    }

    pub fn new(key: [u8; 32]) -> (r: Self)
        ensures
            r.wf(),
            r.key_view() == key@,
    {
        Ed25519 { key: key_to_vec(key) }
    }

    /// Build a backend from raw key material: the first `KEY_LEN` bytes are
    /// the seed; fewer are rejected.
    pub fn try_new(key: &[u8]) -> (r: Result<Self, TextError>)
        ensures
            key@.len() >= KEY_LEN ==> (r matches Ok(b) && b.wf() && b.key_view() == key@.subrange(
                0,
                KEY_LEN as int,
            )),
            key@.len() < KEY_LEN ==> (r matches Err(e) && e is KeyTooShort),
    {
        let k = key_from_bytes(key)?;
        Ok(Ed25519 { key: k })
    }

    /// Sign `msg` deterministically; the produced signature verifies under
    /// the key pair derived from the same seed.
    pub fn sign(&self, msg: &[u8]) -> (sig: Vec<u8>)
        requires
            self.wf(),
        ensures
            sig@ == ed25519_signature(self.key_view(), msg@),
            sig@.len() == ED25519_SIG_LEN,
            spec_sig_accepted(self.key_view(), msg@, sig@, SignFormat::Ed25519),
    {
        ed25519_sign_bytes(self.key.as_slice(), msg)
    }

    /// Check `sig` against `msg` with strict cryptographic verification.
    /// A wrong-length signature is caller misuse, not a negative result.
    pub fn verify(&self, msg: &[u8], sig: &[u8]) -> (r: Result<bool, TextError>)
        requires
            self.wf(),
        ensures
            sig@.len() != ED25519_SIG_LEN ==> (r matches Err(e) && e is InvalidSignatureLength),
            sig@.len() == ED25519_SIG_LEN ==> (r matches Ok(b) && b == spec_sig_accepted(
                self.key_view(),
                msg@,
                sig@,
                SignFormat::Ed25519,
            )),
    {
        if sig.len() != ED25519_SIG_LEN {
            return Err(TextError::InvalidSignatureLength);
        }
        Ok(ed25519_verify_bytes(self.key.as_slice(), msg, sig))
    }
}

/// Sign `input` with the algorithm selected by `format`, keyed by the first
/// `KEY_LEN` bytes of `key`. The produced signature is always accepted by the
/// matching verification under the same key.
pub fn process_sign(input: &[u8], key: &[u8], format: SignFormat) -> (r: Result<
    Vec<u8>,
    TextError,
>)
    ensures
        key@.len() < KEY_LEN ==> (r matches Err(e) && e is KeyTooShort),
        key@.len() >= KEY_LEN ==> (r matches Ok(sig) && {
            let k = key@.subrange(0, KEY_LEN as int);
            &&& sig@ == spec_signature(k, input@, format)
            &&& sig@.len() == spec_sig_len(format)
            &&& spec_sig_accepted(k, input@, sig@, format)
        }),
{
    match format {
        SignFormat::Blake3 => {
            let backend = Blake3::try_new(key)?;
            Ok(backend.sign(input))
        },
        SignFormat::Ed25519 => {
            let backend = Ed25519::try_new(key)?;
            Ok(backend.sign(input))
        },
    }
}

/// Verify `sig` over `input` with the algorithm selected by `format`, keyed
/// by the first `KEY_LEN` bytes of `key`. A wrong-length signature is an
/// error; a well-formed non-matching signature is the result `false`.
pub fn process_verify(input: &[u8], key: &[u8], format: SignFormat, sig: &[u8]) -> (r: Result<
    bool,
    TextError,
>)
    ensures
        key@.len() < KEY_LEN ==> (r matches Err(e) && e is KeyTooShort),
        key@.len() >= KEY_LEN && sig@.len() != spec_sig_len(format) ==> (r matches Err(e)
            && e is InvalidSignatureLength),
        key@.len() >= KEY_LEN && sig@.len() == spec_sig_len(format) ==> (r matches Ok(b) && b
            == spec_sig_accepted(key@.subrange(0, KEY_LEN as int), input@, sig@, format)),
{
    match format {
        SignFormat::Blake3 => {
            let backend = Blake3::try_new(key)?;
            backend.verify(input, sig)
        },
        SignFormat::Ed25519 => {
            let backend = Ed25519::try_new(key)?;
            backend.verify(input, sig)
        },
    }
}

/// The keyed-hash scheme accepts the digest it computes: signing and then
/// verifying with the same key and message always succeeds.
pub proof fn lemma_keyed_hash_round_trip(key: Seq<u8>, msg: Seq<u8>)
    ensures
        spec_sig_accepted(key, msg, spec_signature(key, msg, SignFormat::Blake3), SignFormat::Blake3),
{
}

/// The keyed-hash scheme accepts nothing else: any signature that differs
/// from the recomputed digest is rejected, whatever its length.
pub proof fn lemma_keyed_hash_rejects_others(key: Seq<u8>, msg: Seq<u8>, sig: Seq<u8>)
    requires
        sig != spec_signature(key, msg, SignFormat::Blake3),
    ensures
        !spec_sig_accepted(key, msg, sig, SignFormat::Blake3),
{
}

} // verus!
