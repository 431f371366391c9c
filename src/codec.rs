//! The text-safe binary codec: URL-safe base64 without padding, with the
//! whitespace around encoded text trimmed before decoding.
use vstd::prelude::*;

use base64::Engine;

use crate::error::TextError;

verus! {

/// The URL-safe, unpadded base64 encoding of `bytes`.
pub uninterp spec fn base64_url_unpadded(bytes: Seq<u8>) -> Seq<char>;

/// A symbol of the URL-safe base64 alphabet.
pub open spec fn is_url_safe_symbol(c: char) -> bool {
    ||| 'A' <= c <= 'Z'
    ||| 'a' <= c <= 'z'
    ||| '0' <= c <= '9'
    ||| c == '-'
    ||| c == '_'
}

/// Every character of `t` is a symbol of the URL-safe alphabet.
pub open spec fn all_url_safe(t: Seq<char>) -> bool {
    forall|i: int| 0 <= i < t.len() ==> is_url_safe_symbol(#[trigger] t[i])
}

/// Text that unpadded URL-safe base64 could decode: alphabet symbols only, and a
/// length that is not 1 more than a multiple of 4.
pub open spec fn url_safe_shape(t: Seq<char>) -> bool {
    all_url_safe(t) && t.len() % 4 != 1
}

/// The length of the unpadded encoding of `n` bytes: 4 characters per 3 bytes,
/// and 2 or 3 for a final 1 or 2 bytes.
pub open spec fn unpadded_len(n: nat) -> nat {
    ((4 * n + 2) / 3) as nat
}

/// A character with the Unicode `White_Space` property.
pub open spec fn is_white_space(c: char) -> bool {
    ||| '\u{9}' <= c <= '\u{d}'
    ||| c == ' '
    ||| c == '\u{85}'
    ||| c == '\u{a0}'
    ||| c == '\u{1680}'
    ||| '\u{2000}' <= c <= '\u{200a}'
    ||| c == '\u{2028}'
    ||| c == '\u{2029}'
    ||| c == '\u{202f}'
    ||| c == '\u{205f}'
    ||| c == '\u{3000}'
}

/// `s` without its leading white space.
pub open spec fn trim_start(s: Seq<char>) -> Seq<char>
    decreases s.len(),
{
    if s.len() > 0 && is_white_space(s[0]) {
        trim_start(s.drop_first())
    } else {
        s
    }
}

/// `s` without its trailing white space.
pub open spec fn trim_end(s: Seq<char>) -> Seq<char>
    decreases s.len(),
{
    if s.len() > 0 && is_white_space(s.last()) {
        trim_end(s.drop_last())
    } else {
        s
    }
}

/// `s` without the white space around it.
pub open spec fn trimmed(s: Seq<char>) -> Seq<char> {
    trim_end(trim_start(s))
}

/// Relies on `URL_SAFE_NO_PAD.encode` of the `base64` crate: the encoding, written in
/// the URL-safe alphabet (`A`-`Z`, `a`-`z`, `0`-`9`, `-`, `_`) with no padding, of the
/// length that `base64::encoded_len` gives without padding.
#[verifier::external_body]
fn url_unpadded_encode(bytes: &[u8]) -> (r: String)
    ensures
        r@ == base64_url_unpadded(bytes@),
        forall|i: int| 0 <= i < r@.len() ==> is_url_safe_symbol(#[trigger] r@[i]),
        r@.len() == unpadded_len(bytes@.len()),
{
    base64::engine::general_purpose::URL_SAFE_NO_PAD.encode(bytes)
}

/// Relies on `URL_SAFE_NO_PAD.decode` of the `base64` crate. Its decoding is canonical
/// (padding must be absent, trailing bits must be zero), so it succeeds exactly on
/// the encodings of byte strings, and returns the bytes encoded. A symbol outside
/// the alphabet (`=` included) or a length of 1 mod 4 is an error.
#[verifier::external_body]
fn url_unpadded_decode(text: &str) -> (r: Option<Vec<u8>>)
    ensures
        !url_safe_shape(text@) ==> r is None,
        r matches Some(b) ==> base64_url_unpadded(b@) == text@,
        forall|b: Seq<u8>| #[trigger] base64_url_unpadded(b) == text@ ==> r is Some && r.unwrap()@ == b,
{
    base64::engine::general_purpose::URL_SAFE_NO_PAD.decode(text).ok()
}

/// Whether `c` is white space, as `char::is_whitespace` defines it.
pub fn is_white_space_char(c: char) -> (r: bool)
    ensures
        r == is_white_space(c),
{
    ('\u{9}' <= c && c <= '\u{d}') || c == ' ' || c == '\u{85}' || c == '\u{a0}' || c
        == '\u{1680}' || ('\u{2000}' <= c && c <= '\u{200a}') || c == '\u{2028}' || c == '\u{2029}'
        || c == '\u{202f}' || c == '\u{205f}' || c == '\u{3000}'
}

/// `s` without the white space around it.
pub fn trim_white_space(s: &str) -> (r: &str)
    ensures
        r@ == trimmed(s@),
{
    let n = s.unicode_len();
    let mut start: usize = 0;
    assert(s@.subrange(0, n as int) =~= s@);
    loop
        invariant
            n == s@.len(),
            start <= n,
            trim_start(s@) == trim_start(s@.subrange(start as int, n as int)),
        ensures
            trim_start(s@) == s@.subrange(start as int, n as int),
            start <= n,
        decreases n - start,
    {
        if start == n || !is_white_space_char(s.get_char(start)) {
            break;
        }
        assert(s@.subrange(start as int, n as int).drop_first() =~= s@.subrange(
            start + 1,
            n as int,
        ));
        start = start + 1;
    }
    let mut end: usize = n;
    loop
        invariant
            n == s@.len(),
            start <= end <= n,
            trim_start(s@) == s@.subrange(start as int, n as int),
            trim_end(s@.subrange(start as int, n as int)) == trim_end(
                s@.subrange(start as int, end as int),
            ),
        ensures
            start <= end <= n,
            trimmed(s@) == s@.subrange(start as int, end as int),
        decreases end - start,
    {
        if end == start || !is_white_space_char(s.get_char(end - 1)) {
            break;
        }
        assert(s@.subrange(start as int, end as int).drop_last() =~= s@.subrange(
            start as int,
            end - 1,
        ));
        end = end - 1;
    }
    s.substring_char(start, end)
}

/// Encodes bytes as URL-safe base64 without padding: only symbols of the URL-safe
/// alphabet, 4 for every 3 bytes. The text has no white space around it, so
/// trimming leaves it as it is.
pub fn encode(bytes: &[u8]) -> (r: String)
    ensures
        r@ == base64_url_unpadded(bytes@),
        all_url_safe(r@),
        r@.len() == unpadded_len(bytes@.len()),
        trimmed(r@) == r@,
{
    let r = url_unpadded_encode(bytes);
    proof {
        if r@.len() > 0 {
            assert(is_url_safe_symbol(r@[0]));
            assert(is_url_safe_symbol(r@.last()));
        }
    }
    r
}

/// Decodes URL-safe unpadded base64 after trimming the white space around it.
/// Decoding what `encode` produced gives back the encoded bytes.
pub fn decode(text: &str) -> (r: Result<Vec<u8>, TextError>)
    ensures
        r matches Ok(b) ==> base64_url_unpadded(b@) == trimmed(text@),
        r is Err ==> r == Err::<Vec<u8>, TextError>(TextError::InvalidEncoding),
        r is Err <==> forall|b: Seq<u8>| base64_url_unpadded(b) != trimmed(text@),
        !url_safe_shape(trimmed(text@)) ==> r == Err::<Vec<u8>, TextError>(TextError::InvalidEncoding),
        forall|b: Seq<u8>| #[trigger] base64_url_unpadded(b) == trimmed(text@) ==> r is Ok
            && r.unwrap()@ == b,
{
    let t = trim_white_space(text);
    match url_unpadded_decode(t) {
        Some(b) => Ok(b),
        None => Err(TextError::InvalidEncoding),
    }
}

} // verus!
