//! Options of the text commands and the algorithm selectors they carry.
use vstd::prelude::*;

use crate::cli::str_eq;
use crate::error::TextError;

verus! {

/// Signs the input with a private or shared key.
#[derive(Debug, Clone)]
pub struct TextSignOpts {
    pub input: String,
    pub key: String,
    pub format: TextSignFormat,
}

/// Verifies a signature on the input.
#[derive(Debug, Clone)]
pub struct TextVerifyOpts {
    pub input: String,
    pub key: String,
    pub format: TextSignFormat,
    pub sig: String,
}

/// Generates a new key into a directory.
#[derive(Debug, Clone)]
pub struct TextKeyGenerateOpts {
    pub format: TextSignFormat,
    pub output: String,
}

/// Encrypts the input.
#[derive(Debug, Clone)]
pub struct EncryptOpts {
    pub input: String,
    pub key: String,
    pub nonce: String,
    pub format: TextCryptFormat,
}

/// Decrypts the input.
#[derive(Debug, Clone)]
pub struct DecryptOpts {
    pub input: String,
    pub key: String,
    pub nonce: String,
    pub format: TextCryptFormat,
}

/// The text commands.
#[derive(Debug, Clone)]
pub enum TextSubCommand {
    Sign(TextSignOpts),
    Verify(TextVerifyOpts),
    Generate(TextKeyGenerateOpts),
    Encrypt(EncryptOpts),
    Decrypt(DecryptOpts),
}

/// The signing family: a keyed hash or a public-key signature.
#[derive(Debug, Clone, Copy, PartialEq, Eq, Structural)]
pub enum TextSignFormat {
    Blake3,
    Ed25519,
}

/// The encryption family.
#[derive(Debug, Clone, Copy, PartialEq, Eq, Structural)]
pub enum TextCryptFormat {
    Chacha20poly1305,
}

impl TextSignFormat {
    /// The name the selector is written with.
    pub fn as_str(&self) -> (r: &'static str)
        ensures
            r@ == sign_format_name(*self),
    {
        match self {
            TextSignFormat::Blake3 => "blake3",
            TextSignFormat::Ed25519 => "ed25519",
        }
    }

    /// Reads a selector from its name.
    pub fn from_name(s: &str) -> (r: Result<TextSignFormat, TextError>)
        ensures
            r == parse_sign_format_spec(s@),
    {
        if str_eq(s, "blake3") {
            Ok(TextSignFormat::Blake3)
        } else if str_eq(s, "ed25519") {
            Ok(TextSignFormat::Ed25519)
        } else {
            Err(TextError::UnsupportedAlgorithm)
        }
    }
}

impl TextCryptFormat {
    /// The name the selector is written with.
    pub fn as_str(&self) -> (r: &'static str)
        ensures
            r@ == "chacha20poly1305"@,
    {
        "chacha20poly1305"
    }

    /// Reads a selector from its name.
    pub fn from_name(s: &str) -> (r: Result<TextCryptFormat, TextError>)
        ensures
            r == parse_crypt_format_spec(s@),
    {
        if str_eq(s, "chacha20poly1305") {
            Ok(TextCryptFormat::Chacha20poly1305)
        } else {
            Err(TextError::UnsupportedAlgorithm)
        }
    }
}

/// The name of a signing selector.
pub open spec fn sign_format_name(f: TextSignFormat) -> Seq<char> {
    match f {
        TextSignFormat::Blake3 => "blake3"@,
        TextSignFormat::Ed25519 => "ed25519"@,
    }
}

/// The signing selector a name stands for.
pub open spec fn parse_sign_format_spec(s: Seq<char>) -> Result<TextSignFormat, TextError> {
    if s == "blake3"@ {
        Ok(TextSignFormat::Blake3)
    } else if s == "ed25519"@ {
        Ok(TextSignFormat::Ed25519)
    } else {
        Err(TextError::UnsupportedAlgorithm)
    }
}

/// The encryption selector a name stands for.
pub open spec fn parse_crypt_format_spec(s: Seq<char>) -> Result<TextCryptFormat, TextError> {
    if s == "chacha20poly1305"@ {
        Ok(TextCryptFormat::Chacha20poly1305)
    } else {
        Err(TextError::UnsupportedAlgorithm)
    }
}

/// Reads an encryption selector from its name.
pub fn parse_crypt_format(format: &str) -> (r: Result<TextCryptFormat, TextError>)
    ensures
        r == parse_crypt_format_spec(format@),
{
    TextCryptFormat::from_name(format)
}

/// Reads a signing selector from its name.
pub fn parse_verify_format(format: &str) -> (r: Result<TextSignFormat, TextError>)
    ensures
        r == parse_sign_format_spec(format@),
{
    TextSignFormat::from_name(format)
}

impl TextKeyGenerateOpts {
    /// The names of the files the generated key blobs are stored under, in the
    /// order the blobs come.
    pub fn key_file_names(&self) -> (r: Vec<&'static str>)
        ensures
            self.format == TextSignFormat::Blake3 ==> r@.len() == 1 && r@[0]@ == "blake3.txt"@,
            self.format == TextSignFormat::Ed25519 ==> r@.len() == 2 && r@[0]@ == "ed25519.sk"@
                && r@[1]@ == "ed25519.pk"@,
    {
        match self.format {
            TextSignFormat::Blake3 => vec!["blake3.txt"],
            TextSignFormat::Ed25519 => vec!["ed25519.sk", "ed25519.pk"],
        }
    }
}

} // verus!
