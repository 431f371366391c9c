use vstd::prelude::*;

verus! {

/// Why an operation of the engine did not produce a result.
#[derive(Debug, Clone, Copy, PartialEq, Eq, Structural)]
pub enum TextError {
    /// The input source could not be opened.
    NotFound,
    /// Text that should hold the URL-safe unpadded encoding does not.
    InvalidEncoding,
    /// Key material is shorter (or, for signature keys, other) than its algorithm needs.
    InvalidKeyLength,
    /// Key material has the right length but does not decode to a key.
    InvalidKeyEncoding,
    /// Signature bytes do not have the shape of a signature.
    InvalidSignatureEncoding,
    /// The authentication tag of a ciphertext does not verify.
    AuthenticationFailed,
    /// An algorithm name outside the supported set.
    UnsupportedAlgorithm,
    /// A plaintext longer than the cipher can process in one message.
    InputTooLong,
}

/// The description of each error.
pub open spec fn error_message(e: TextError) -> Seq<char> {
    match e {
        TextError::NotFound => "input not found"@,
        TextError::InvalidEncoding => "invalid encoding"@,
        TextError::InvalidKeyLength => "invalid key length"@,
        TextError::InvalidKeyEncoding => "invalid key encoding"@,
        TextError::InvalidSignatureEncoding => "invalid signature encoding"@,
        TextError::AuthenticationFailed => "authentication failed"@,
        TextError::UnsupportedAlgorithm => "unsupported algorithm"@,
        TextError::InputTooLong => "input too long"@,
    }
}

impl TextError {
    /// A short human-readable description.
    pub fn message(&self) -> (r: &'static str)
        ensures
            r@ == error_message(*self),
    {
        match self {
            TextError::NotFound => "input not found",
            TextError::InvalidEncoding => "invalid encoding",
            TextError::InvalidKeyLength => "invalid key length",
            TextError::InvalidKeyEncoding => "invalid key encoding",
            TextError::InvalidSignatureEncoding => "invalid signature encoding",
            TextError::AuthenticationFailed => "authentication failed",
            TextError::UnsupportedAlgorithm => "unsupported algorithm",
            TextError::InputTooLong => "input too long",
        }
    }
}

} // verus!
