//! Options of the base64 commands.
use vstd::prelude::*;

use crate::cli::{str_eq, CliError};

verus! {

/// Encodes the input.
#[derive(Debug, Clone)]
pub struct Base64EncodeOpts {
    pub input: String,
    pub format: Base64Format,
}

/// Decodes the input.
#[derive(Debug, Clone)]
pub struct Base64DecodeOpts {
    pub input: String,
    pub format: Base64Format,
}

/// The base64 commands.
#[derive(Debug, Clone)]
pub enum Base64SubCommand {
    Encode(Base64EncodeOpts),
    Decode(Base64DecodeOpts),
}

/// The base64 flavour: padded standard, or standard without padding.
#[derive(Debug, Clone, Copy, PartialEq, Eq, Structural)]
pub enum Base64Format {
    Standard,
    UrlSafe,
}

/// The flavour a name stands for.
pub open spec fn base64_format_spec(s: Seq<char>) -> Result<Base64Format, CliError> {
    if s == "standard"@ {
        Ok(Base64Format::Standard)
    } else if s == "urlsafe"@ {
        Ok(Base64Format::UrlSafe)
    } else {
        Err(CliError::InvalidFormat)
    }
}

impl Base64Format {
    /// The name the flavour is written with.
    pub fn as_str(&self) -> (r: &'static str)
        ensures
            r@ == match *self {
                Base64Format::Standard => "standard"@,
                Base64Format::UrlSafe => "urlsafe"@,
            },
    {
        match self {
            Base64Format::Standard => "standard",
            Base64Format::UrlSafe => "urlsafe",
        }
    }

    /// Reads a flavour from its name.
    pub fn from_name(s: &str) -> (r: Result<Base64Format, CliError>)
        ensures
            r == base64_format_spec(s@),
    {
        if str_eq(s, "standard") {
            Ok(Base64Format::Standard)
        } else if str_eq(s, "urlsafe") {
            Ok(Base64Format::UrlSafe)
        } else {
            Err(CliError::InvalidFormat)
        }
    }
}

/// Reads a flavour from its name.
pub fn parse_format(format: &str) -> (r: Result<Base64Format, CliError>)
    ensures
        r == base64_format_spec(format@),
{
    Base64Format::from_name(format)
}

} // verus!
