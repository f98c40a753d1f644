use vstd::prelude::*;

verus! {

/// Every failure the text-processing core can report.
///
/// All failures are terminal for the operation that raised them; there is no
/// retry policy. `Verify` distinguishes a structural error
/// (`InvalidSignatureLength`) from a legitimate negative result (`Ok(false)`).
#[derive(Debug, Clone, Copy, PartialEq, Eq, Structural)]
pub enum TextError {
    /// Fewer key bytes were supplied than the algorithm requires.
    KeyTooShort,
    /// A supplied signature does not have the algorithm's signature length.
    InvalidSignatureLength,
    /// An envelope is missing its separator, a half is not valid base64, or
    /// the decoded nonce does not have the nonce length.
    MalformedEnvelope,
    /// The cipher's authentication check failed: the ciphertext or nonce was
    /// altered, or the wrong key was used.
    AuthenticationFailed,
    /// An algorithm or format tag was not recognised.
    UnknownFormat,
}

impl TextError {
    /// A human-readable description of the error.
    pub fn message(&self) -> (r: &'static str)
        ensures
            self is KeyTooShort ==> r@ == "key material is shorter than the required key length"@,
            self is InvalidSignatureLength ==> r@ == "signature does not have the expected length"@,
            self is MalformedEnvelope ==> r@ == "envelope is missing its separator or holds invalid base64"@,
            self is AuthenticationFailed ==> r@ == "authentication failed: data was tampered with or the key is wrong"@,
            self is UnknownFormat ==> r@ == "unrecognised format tag"@,
    {
        match self {
            TextError::KeyTooShort => "key material is shorter than the required key length",
            TextError::InvalidSignatureLength => "signature does not have the expected length",
            TextError::MalformedEnvelope => "envelope is missing its separator or holds invalid base64",
            TextError::AuthenticationFailed => "authentication failed: data was tampered with or the key is wrong",
            TextError::UnknownFormat => "unrecognised format tag",
        }
    }
}

} // verus!
