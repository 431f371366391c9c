//! The base64 commands: standard base64, padded or not.
use vstd::prelude::*;

use base64::Engine;

use crate::cli::Base64Format;
use crate::codec::{trim_white_space, trimmed, unpadded_len};
use crate::error::TextError;

verus! {

/// The standard base64 encoding of `bytes`, with `=` padding.
pub uninterp spec fn base64_standard(bytes: Seq<u8>) -> Seq<char>;

/// The standard base64 encoding of `bytes`, without padding.
pub uninterp spec fn base64_standard_unpadded(bytes: Seq<u8>) -> Seq<char>;

/// A symbol of the standard base64 alphabet (`A`-`Z`, `a`-`z`, `0`-`9`, `+`, `/`).
pub open spec fn is_standard_symbol(c: char) -> bool {
    ||| 'A' <= c <= 'Z'
    ||| 'a' <= c <= 'z'
    ||| '0' <= c <= '9'
    ||| c == '+'
    ||| c == '/'
}

/// Every character of `t` is a standard symbol, or `=` where `padded`.
pub open spec fn all_standard(t: Seq<char>, padded: bool) -> bool {
    forall|i: int| 0 <= i < t.len() ==> is_standard_symbol(#[trigger] t[i]) || (padded && t[i] == '=')
}

/// The length of the padded encoding of `n` bytes: 4 characters per started 3 bytes.
pub open spec fn padded_len(n: nat) -> nat {
    (4 * ((n + 2) / 3)) as nat
}

/// Text that a flavour could decode: its symbols only (and `=` for the padded one),
/// of a length that a multiple of 4 (padded) or not 1 more than one (unpadded).
pub open spec fn base64_shape(format: Base64Format, t: Seq<char>) -> bool {
    match format {
        Base64Format::Standard => all_standard(t, true) && t.len() % 4 == 0,
        Base64Format::UrlSafe => all_standard(t, false) && t.len() % 4 != 1,
    }
}

/// The length of the encoding a flavour gives `n` bytes.
pub open spec fn base64_len(format: Base64Format, n: nat) -> nat {
    match format {
        Base64Format::Standard => padded_len(n),
        Base64Format::UrlSafe => unpadded_len(n),
    }
}

/// The encoding a flavour gives `bytes`.
pub open spec fn base64_of(format: Base64Format, bytes: Seq<u8>) -> Seq<char> {
    match format {
        Base64Format::Standard => base64_standard(bytes),
        Base64Format::UrlSafe => base64_standard_unpadded(bytes),
    }
}

/// Relies on `STANDARD.encode` of the `base64` crate: standard symbols, `=` padding
/// to a multiple of 4, of the length `base64::encoded_len` gives with padding.
#[verifier::external_body]
fn standard_encode(bytes: &[u8]) -> (r: String)
    ensures
        r@ == base64_standard(bytes@),
        all_standard(r@, true),
        r@.len() == padded_len(bytes@.len()),
{
    base64::engine::general_purpose::STANDARD.encode(bytes)
}

/// Relies on `STANDARD.decode` of the `base64` crate. Its decoding is canonical
/// (padding as the encoder writes it, trailing bits zero), so it succeeds exactly on
/// encodings and returns the bytes encoded. A character other than a symbol or `=`,
/// or a length that is not a multiple of 4, is an error.
#[verifier::external_body]
fn standard_decode(text: &str) -> (r: Option<Vec<u8>>)
    ensures
        !base64_shape(Base64Format::Standard, text@) ==> r is None,
        r matches Some(b) ==> base64_standard(b@) == text@,
        forall|b: Seq<u8>| #[trigger] base64_standard(b) == text@ ==> r is Some && r.unwrap()@ == b,
{
    base64::engine::general_purpose::STANDARD.decode(text).ok()
}

/// Relies on `STANDARD_NO_PAD.encode` of the `base64` crate: standard symbols only,
/// of the length `base64::encoded_len` gives without padding.
#[verifier::external_body]
fn standard_unpadded_encode(bytes: &[u8]) -> (r: String)
    ensures
        r@ == base64_standard_unpadded(bytes@),
        all_standard(r@, false),
        r@.len() == unpadded_len(bytes@.len()),
{
    base64::engine::general_purpose::STANDARD_NO_PAD.encode(bytes)
}

/// Relies on `STANDARD_NO_PAD.decode` of the `base64` crate. Its decoding is canonical
/// (padding must be absent, trailing bits zero), so it succeeds exactly on encodings
/// and returns the bytes encoded. A character other than a symbol (`=` included),
/// or a length of 1 mod 4, is an error.
#[verifier::external_body]
fn standard_unpadded_decode(text: &str) -> (r: Option<Vec<u8>>)
    ensures
        !base64_shape(Base64Format::UrlSafe, text@) ==> r is None,
        r matches Some(b) ==> base64_standard_unpadded(b@) == text@,
        forall|b: Seq<u8>| #[trigger] base64_standard_unpadded(b) == text@ ==> r is Some
            && r.unwrap()@ == b,
{
    base64::engine::general_purpose::STANDARD_NO_PAD.decode(text).ok()
}

/// Encodes the input bytes in the chosen flavour. The text has no white space
/// around it, so decoding it with the same flavour gives the bytes back.
pub fn process_encode(data: &[u8], format: Base64Format) -> (r: String)
    ensures
        r@ == base64_of(format, data@),
        all_standard(r@, format == Base64Format::Standard),
        r@.len() == base64_len(format, data@.len()),
        trimmed(r@) == r@,
{
    let r = match format {
        Base64Format::Standard => standard_encode(data),
        Base64Format::UrlSafe => standard_unpadded_encode(data),
    };
    proof {
        if r@.len() > 0 {
            assert(is_standard_symbol(r@[0]) || r@[0] == '=');
            assert(is_standard_symbol(r@.last()) || r@.last() == '=');
        }
    }
    r
}

/// Decodes text in the chosen flavour after trimming the white space around it.
pub fn process_decode(text: &str, format: Base64Format) -> (r: Result<Vec<u8>, TextError>)
    ensures
        r matches Ok(b) ==> base64_of(format, b@) == trimmed(text@),
        forall|b: Seq<u8>| #[trigger] base64_of(format, b) == trimmed(text@) ==> r is Ok && r.unwrap()@ == b,
        r is Err ==> r == Err::<Vec<u8>, TextError>(TextError::InvalidEncoding),
        r is Err <==> forall|b: Seq<u8>| base64_of(format, b) != trimmed(text@),
        !base64_shape(format, trimmed(text@)) ==> r == Err::<Vec<u8>, TextError>(TextError::InvalidEncoding),
{
    let t = trim_white_space(text);
    let decoded = match format {
        Base64Format::Standard => {
            let d = standard_decode(t);
            assert(!base64_shape(format, t@) ==> d is None);
            d
        },
        Base64Format::UrlSafe => {
            let d = standard_unpadded_decode(t);
            assert(!base64_shape(format, t@) ==> d is None);
            d
        },
    };
    proof {
        assert forall|b: Seq<u8>| #[trigger] base64_of(format, b) == trimmed(text@) implies decoded is Some && decoded.unwrap()@ == b by {
            match format {
                Base64Format::Standard => assert(base64_standard(b) == t@),
                Base64Format::UrlSafe => assert(base64_standard_unpadded(b) == t@),
            }
        }
        if decoded is Some {
            assert(base64_of(format, decoded.unwrap()@) == trimmed(text@));
        }

    }
    match decoded {
        Some(b) => Ok(b),
        None => Err(TextError::InvalidEncoding),
    }
}

} // verus!
