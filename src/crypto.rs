//! The primitives the engine calls, each behind one trusted wrapper.
//!
//! What a primitive computes takes pages to state, so its result is given a
//! name: a spec function without a body that depends on the arguments alone.
//! Beside each name stand only the facts that the crate's documentation or
//! source gives plainly (output lengths, and the relations between signing
//! and verifying, sealing and opening).
use vstd::prelude::*;

use chacha20poly1305::aead::{Aead, KeyInit};
use ed25519_dalek::{Signer, Verifier};

verus! {

/// Bytes in a keyed-hash key.
pub const MAC_KEY_LEN: usize = 32;

/// Bytes in a keyed-hash digest.
pub const MAC_LEN: usize = 32;

/// Bytes in either half of a signature keypair.
pub const SIGNATURE_KEY_LEN: usize = 32;

/// Bytes in a signature.
pub const SIGNATURE_LEN: usize = 64;

/// Bytes in an AEAD key.
pub const AEAD_KEY_LEN: usize = 32;

/// Bytes in an AEAD nonce.
pub const AEAD_NONCE_LEN: usize = 12;

/// Bytes of authentication tag appended to every ciphertext.
pub const AEAD_TAG_LEN: usize = 16;

/// Plaintexts must be shorter than this many bytes (64-byte blocks, counted in a u32).
pub const AEAD_MAX_PLAINTEXT: u64 = 274877906880;

/// The BLAKE3 keyed hash of `data` under `key`.
pub uninterp spec fn blake3_keyed(key: Seq<u8>, data: Seq<u8>) -> Seq<u8>;

/// The Ed25519 public key derived from a 32-byte secret key.
pub uninterp spec fn ed25519_public_of(secret: Seq<u8>) -> Seq<u8>;

/// The Ed25519 signature (RFC 8032, deterministic) of `msg` under a 32-byte secret key.
pub uninterp spec fn ed25519_signature(secret: Seq<u8>, msg: Seq<u8>) -> Seq<u8>;

/// Whether 32 bytes are the encoding of a curve point, i.e. a usable public key.
pub uninterp spec fn ed25519_point_valid(public: Seq<u8>) -> bool;

/// Whether a 64-byte signature on `msg` verifies under a valid public key.
pub uninterp spec fn ed25519_accepts(public: Seq<u8>, msg: Seq<u8>, sig: Seq<u8>) -> bool;

/// The ChaCha20-Poly1305 ciphertext (with its tag appended) of `plaintext`,
/// with no associated data.
pub uninterp spec fn chacha20poly1305_seal(key: Seq<u8>, nonce: Seq<u8>, plaintext: Seq<u8>) -> Seq<u8>;

/// Relies on `blake3::keyed_hash`: a 32-byte digest determined by the key and the data.
#[verifier::external_body]
pub(crate) fn blake3_keyed_hash(key: &[u8; 32], data: &[u8]) -> (r: [u8; 32])
    ensures
        r@ == blake3_keyed(key@, data@),
{
    *blake3::keyed_hash(key, data).as_bytes()
}

/// Relies on `ed25519_dalek::SigningKey::verifying_key` (after `SigningKey::from_bytes`):
/// the public key is derived from the secret alone, and being the compression of a
/// curve point, it decodes again.
#[verifier::external_body]
pub(crate) fn ed25519_derive_public(secret: &[u8; 32]) -> (r: [u8; 32])
    ensures
        r@ == ed25519_public_of(secret@),
        ed25519_point_valid(r@),
{
    ed25519_dalek::SigningKey::from_bytes(secret).verifying_key().to_bytes()
}

/// Relies on `Signer::sign` for `ed25519_dalek::SigningKey`: the deterministic signature,
/// which verifies under the public key derived from the same secret.
#[verifier::external_body]
pub(crate) fn ed25519_sign(secret: &[u8; 32], msg: &[u8]) -> (r: [u8; 64])
    ensures
        r@ == ed25519_signature(secret@, msg@),
        ed25519_accepts(ed25519_public_of(secret@), msg@, r@),
{
    ed25519_dalek::SigningKey::from_bytes(secret).sign(msg).to_bytes()
}

/// Relies on `ed25519_dalek::VerifyingKey::from_bytes`: whether the bytes decode to a point.
#[verifier::external_body]
pub(crate) fn ed25519_public_decodes(public: &[u8; 32]) -> (r: bool)
    ensures
        r == ed25519_point_valid(public@),
{
    ed25519_dalek::VerifyingKey::from_bytes(public).is_ok()
}

/// Relies on `Verifier::verify` for `ed25519_dalek::VerifyingKey`: a yes/no answer
/// determined by the public key, the message and the signature.
#[verifier::external_body]
pub(crate) fn ed25519_verify(public: &[u8; 32], msg: &[u8], sig: &[u8; 64]) -> (r: bool)
    requires
        ed25519_point_valid(public@),
    ensures
        r == ed25519_accepts(public@, msg@, sig@),
{
    match ed25519_dalek::VerifyingKey::from_bytes(public) {
        Ok(key) => key.verify(msg, &ed25519_dalek::Signature::from_bytes(sig)).is_ok(),
        Err(_) => false,
    }
}

/// Relies on `ed25519_dalek::SigningKey::generate` with `rand::rngs::OsRng`:
/// 32 fresh secret bytes from the operating system. Nothing is promised of their value.
#[verifier::external_body]
pub(crate) fn ed25519_fresh_secret() -> (r: [u8; 32]) {
    ed25519_dalek::SigningKey::generate(&mut rand::rngs::OsRng).to_bytes()
}

/// Relies on `Aead::encrypt` for `chacha20poly1305::ChaCha20Poly1305`: it refuses only
/// plaintexts of `AEAD_MAX_PLAINTEXT` bytes or more, and appends a 16-byte tag.
#[verifier::external_body]
pub(crate) fn chacha20poly1305_encrypt(
    key: &[u8; 32],
    nonce: &[u8; 12],
    plaintext: &[u8],
) -> (r: Option<Vec<u8>>)
    ensures
        r is Some <==> plaintext@.len() < AEAD_MAX_PLAINTEXT,
        r matches Some(c) ==> c@ == chacha20poly1305_seal(key@, nonce@, plaintext@),
        r matches Some(c) ==> c@.len() == plaintext@.len() + AEAD_TAG_LEN,
{
    let cipher = chacha20poly1305::ChaCha20Poly1305::new(key.into());
    cipher.encrypt(nonce.into(), plaintext).ok()
}

/// Relies on `Aead::decrypt` for `chacha20poly1305::ChaCha20Poly1305`: it succeeds
/// exactly when the tag verifies, that is on what `encrypt` produced under the same
/// key and nonce, and then returns that plaintext.
#[verifier::external_body]
pub(crate) fn chacha20poly1305_decrypt(
    key: &[u8; 32],
    nonce: &[u8; 12],
    ciphertext: &[u8],
) -> (r: Option<Vec<u8>>)
    ensures
        r matches Some(p) ==> p@.len() < AEAD_MAX_PLAINTEXT,
        r matches Some(p) ==> chacha20poly1305_seal(key@, nonce@, p@) == ciphertext@,
        forall|p: Seq<u8>|
            p.len() < AEAD_MAX_PLAINTEXT && #[trigger] chacha20poly1305_seal(key@, nonce@, p)
                == ciphertext@ ==> r is Some && r.unwrap()@ == p,
{
    let cipher = chacha20poly1305::ChaCha20Poly1305::new(key.into());
    cipher.decrypt(nonce.into(), ciphertext).ok()
}

} // verus!
