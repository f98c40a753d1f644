use vstd::prelude::*;

verus! {

/// The URL-safe, unpadded base64 encoding of `data`, as ASCII bytes.
pub uninterp spec fn b64u_encoding(data: Seq<u8>) -> Seq<u8>;

/// The byte the envelope uses to separate its two encoded halves: `|`.
pub const SEPARATOR: u8 = 124;

/// A byte of the URL-safe base64 alphabet: `A`–`Z`, `a`–`z`, `0`–`9`, `-`
/// or `_`. All of them are printable, and none is the separator `|`.
pub open spec fn is_b64u_char(b: u8) -> bool {
    (65 <= b <= 90) || (97 <= b <= 122) || (48 <= b <= 57) || b == 45 || b == 95
}

/// Relies on base64's `Engine::encode` with the `URL_SAFE_NO_PAD` engine:
/// the encoding is a pure function of its input, draws only on the URL-safe
/// alphabet, and is empty exactly for empty input.
#[verifier::external_body]
pub(crate) fn b64u_encode(data: &[u8]) -> (r: Vec<u8>)
    ensures
        r@ == b64u_encoding(data@),
        forall|i: int| 0 <= i < r@.len() ==> is_b64u_char(r@[i]),
        (r@.len() == 0 <==> data@.len() == 0),
{
    base64::Engine::encode(&base64::engine::general_purpose::URL_SAFE_NO_PAD, data).into_bytes()
}

#[verifier::external_type_specification]
#[verifier::external_body]
pub struct ExDecodeError(base64::DecodeError);

/// Relies on base64's `Engine::decode` with the `URL_SAFE_NO_PAD` engine:
/// with padding forbidden (`DecodePaddingMode::RequireNone`) and trailing
/// bits checked, decoding accepts exactly the strings that encoding produces
/// and inverts the encoding on them.
#[verifier::external_body]
pub(crate) fn b64u_decode(data: &[u8]) -> (r: Result<Vec<u8>, base64::DecodeError>)
    ensures
        r matches Ok(v) ==> data@ == b64u_encoding(v@),
        r matches Ok(v) ==> forall|b: Seq<u8>| data@ == b64u_encoding(b) ==> b == v@,
        r is Err ==> forall|b: Seq<u8>| data@ != b64u_encoding(b),
{
    base64::Engine::decode(&base64::engine::general_purpose::URL_SAFE_NO_PAD, data)
}

} // verus!
