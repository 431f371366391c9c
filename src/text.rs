//! The text-integrity and confidentiality engine: keyed-hash and public-key
//! signing and verifying, authenticated encryption, and the key material that
//! feeds them.
use vstd::prelude::*;
use vstd::slice::slice_to_vec;
use vstd::string::StringSliceAdditionalSpecFns;

use crate::cli::{TextCryptFormat, TextSignFormat};
use crate::codec::{all_url_safe, base64_url_unpadded, decode, encode, trimmed, url_safe_shape};
use crate::crypto::{
    blake3_keyed, blake3_keyed_hash, chacha20poly1305_decrypt, chacha20poly1305_encrypt,
    chacha20poly1305_seal, ed25519_accepts, ed25519_derive_public, ed25519_fresh_secret,
    ed25519_point_valid, ed25519_public_decodes, ed25519_public_of, ed25519_sign,
    ed25519_signature, ed25519_verify, AEAD_MAX_PLAINTEXT, AEAD_TAG_LEN, MAC_KEY_LEN, MAC_LEN,
    SIGNATURE_KEY_LEN, SIGNATURE_LEN,
};
use crate::error::TextError;
use crate::genpass::{ascii_chars, is_password, password_bytes};

verus! {

/// The view of a byte-producing result.
pub open spec fn bytes_result(r: Result<Vec<u8>, TextError>) -> Result<Seq<u8>, TextError> {
    match r {
        Ok(v) => Ok(v@),
        Err(e) => Err(e),
    }
}

/// `bytes` cut or zero-padded to exactly `n` bytes.
pub open spec fn fit_bytes(bytes: Seq<u8>, n: nat) -> Seq<u8> {
    Seq::new(n, |i: int| if i < bytes.len() { bytes[i] } else { 0u8 })
}

/// Signs a byte stream.
pub trait TextSign {
    /// The signature this key gives `data`.
    spec fn signature_of(&self, data: Seq<u8>) -> Seq<u8>;

    fn sign(&self, data: &[u8]) -> (r: Vec<u8>)
        ensures
            r@ == self.signature_of(data@),
    ;
}

/// Checks a signature on a byte stream.
pub trait TextVerify {
    /// The answer this key gives for `sig` on `data`.
    spec fn verify_result(&self, data: Seq<u8>, sig: Seq<u8>) -> Result<bool, TextError>;

    fn verify(&self, data: &[u8], sig: &[u8]) -> (r: Result<bool, TextError>)
        ensures
            r == self.verify_result(data@, sig@),
    ;
}

/// Builds key material from the bytes of a key source.
pub trait KeyLoader: Sized {
    /// The error loading `bytes` ends in, if any.
    spec fn load_error(bytes: Seq<u8>) -> Option<TextError>;

    /// Whether this key is the one that `bytes` encode.
    spec fn loaded_from(&self, bytes: Seq<u8>) -> bool;

    fn load(bytes: &[u8]) -> (r: Result<Self, TextError>)
        ensures
            Self::load_error(bytes@) matches Some(e) ==> r == Err::<Self, TextError>(e),
            Self::load_error(bytes@) is None ==> (r matches Ok(k) && k.loaded_from(bytes@)),
    ;
}

/// Makes fresh key material, as byte blobs to be stored by the caller.
pub trait KeyGenerator {
    /// Whether `blobs` have the shape this family's key material has.
    spec fn generated(blobs: Seq<Seq<u8>>) -> bool;

    fn generate() -> (r: Result<Vec<Vec<u8>>, TextError>)
        ensures
            r matches Ok(v) ==> Self::generated(v.deep_view()),
    ;
}

/// Encrypts a byte stream.
pub trait TextEncrypt {
    /// What encrypting `data` gives.
    spec fn encrypt_result(&self, data: Seq<u8>) -> Result<Seq<u8>, TextError>;

    fn encrypt(&self, data: &[u8]) -> (r: Result<Vec<u8>, TextError>)
        ensures
            bytes_result(r) == self.encrypt_result(data@),
    ;
}

/// Decrypts a byte stream.
pub trait TextDecrypt {
    /// What decrypting `data` gives.
    spec fn decrypt_result(&self, data: Seq<u8>) -> Result<Seq<u8>, TextError>;

    fn decrypt(&self, data: &[u8]) -> (r: Result<Vec<u8>, TextError>)
        ensures
            bytes_result(r) == self.decrypt_result(data@),
    ;
}

/// A 32-byte keyed-hash key, used both to sign and to verify.
pub struct Blake3 {
    key: [u8; 32],
}

/// The private half of a signature keypair.
pub struct Ed25519Signer {
    key: [u8; 32],
}

/// The public half of a signature keypair; its bytes always decode to a curve point.
pub struct Ed25519Verifier {
    key: [u8; 32],
}

/// An AEAD key and nonce, both needed to encrypt and to decrypt.
pub struct Chacha20poly1305Obj {
    key: [u8; 32],
    nonce: [u8; 12],
}

impl View for Blake3 {
    type V = Seq<u8>;

    closed spec fn view(&self) -> Seq<u8> {
        self.key@
    }
}

impl View for Ed25519Signer {
    type V = Seq<u8>;

    closed spec fn view(&self) -> Seq<u8> {
        self.key@
    }
}

impl View for Ed25519Verifier {
    type V = Seq<u8>;

    closed spec fn view(&self) -> Seq<u8> {
        self.key@
    }
}

impl View for Chacha20poly1305Obj {
    type V = (Seq<u8>, Seq<u8>);

    closed spec fn view(&self) -> (Seq<u8>, Seq<u8>) {
        (self.key@, self.nonce@)
    }
}

/// Copies exactly 32 bytes into an array.
fn array_32(bytes: &[u8]) -> (r: [u8; 32])
    requires
        bytes@.len() >= 32,
    ensures
        r@ == bytes@.subrange(0, 32),
{
    let mut r = [0u8; 32];
    let mut i: usize = 0;
    while i < 32
        invariant
            i <= 32,
            bytes@.len() >= 32,
            r@.len() == 32,
            forall|j: int| 0 <= j < i ==> r@[j] == bytes@[j],
        decreases 32 - i,
    {
        r[i] = bytes[i];
        i = i + 1;
    }
    assert(r@ =~= bytes@.subrange(0, 32));
    r
}

/// Compares a digest with candidate bytes, always looking at every byte of the digest.
fn digest_matches(digest: &[u8; 32], candidate: &[u8]) -> (r: bool)
    ensures
        r == (digest@ == candidate@),
{
    if candidate.len() != 32 {
        return false;
    }
    let mut diff: u8 = 0;
    let mut i: usize = 0;
    while i < 32
        invariant
            i <= 32,
            digest@.len() == 32,
            candidate@.len() == 32,
            (diff == 0) <==> (forall|j: int| 0 <= j < i ==> digest@[j] == candidate@[j]),
        decreases 32 - i,
    {
        let x = digest[i];
        let y = candidate[i];
        let d = x ^ y;
        assert((d == 0) <==> (x == y)) by (bit_vector)
            requires
                d == x ^ y,
        ;
        assert(((diff | d) == 0) <==> (diff == 0 && d == 0)) by (bit_vector);
        diff = diff | d;
        i = i + 1;
    }
    proof {
        if diff == 0 {
            assert(digest@ =~= candidate@);
        }
    }
    diff == 0
}

impl Blake3 {
    pub fn new(key: [u8; 32]) -> (r: Self)
        ensures
            r@ == key@,
    {
        Blake3 { key }
    }

    /// Takes the first 32 bytes of `key`; fewer than 32 bytes is an error.
    pub fn try_new(key: &[u8]) -> (r: Result<Self, TextError>)
        ensures
            key@.len() < MAC_KEY_LEN ==> r == Err::<Self, TextError>(TextError::InvalidKeyLength),
            key@.len() >= MAC_KEY_LEN ==> (r matches Ok(k) && k@ == key@.subrange(0, 32)),
    {
        if key.len() < MAC_KEY_LEN {
            return Err(TextError::InvalidKeyLength);
        }
        Ok(Blake3::new(array_32(key)))
    }
}

impl TextSign for Blake3 {
    open spec fn signature_of(&self, data: Seq<u8>) -> Seq<u8> {
        blake3_keyed(self@, data)
    }

    fn sign(&self, data: &[u8]) -> (r: Vec<u8>)
        ensures
            r@.len() == MAC_LEN,
    {
        let digest = blake3_keyed_hash(&self.key, data);
        slice_to_vec(digest.as_slice())
    }
}

impl TextVerify for Blake3 {
    open spec fn verify_result(&self, data: Seq<u8>, sig: Seq<u8>) -> Result<bool, TextError> {
        Ok(blake3_keyed(self@, data) == sig)
    }

    fn verify(&self, data: &[u8], sig: &[u8]) -> (r: Result<bool, TextError>)
        ensures
            sig@.len() != MAC_LEN ==> r == Ok::<bool, TextError>(false),
    {
        let digest = blake3_keyed_hash(&self.key, data);
        Ok(digest_matches(&digest, sig))
    }
}

impl KeyLoader for Blake3 {
    open spec fn load_error(bytes: Seq<u8>) -> Option<TextError> {
        if bytes.len() < MAC_KEY_LEN {
            Some(TextError::InvalidKeyLength)
        } else {
            None
        }
    }

    open spec fn loaded_from(&self, bytes: Seq<u8>) -> bool {
        self@ == bytes.subrange(0, 32)
    }

    fn load(bytes: &[u8]) -> (r: Result<Self, TextError>) {
        Blake3::try_new(bytes)
    }
}

/// Bytes in a generated keyed-hash key.
pub const MAC_PASSPHRASE_LEN: u8 = 32;

impl KeyGenerator for Blake3 {
    open spec fn generated(blobs: Seq<Seq<u8>>) -> bool {
        &&& blobs.len() == 1
        &&& blobs[0].len() == MAC_KEY_LEN
        &&& is_password(ascii_chars(blobs[0]), MAC_KEY_LEN as nat, false, false, false, false)
    }

    /// One blob: a fresh passphrase of 32 characters, drawn from upper case, lower
    /// case, digits and symbols, whose bytes are the key.
    fn generate() -> (r: Result<Vec<Vec<u8>>, TextError>)
        ensures
            r is Ok,
    {
        reveal_with_fuel(crate::genpass::included_below, 5);
        match password_bytes(MAC_PASSPHRASE_LEN, false, false, false, false) {
            Ok(key) => {
                let mut blobs: Vec<Vec<u8>> = Vec::new();
                let ghost k = key@;
                blobs.push(key);
                assert(blobs.deep_view()[0] =~= k);
                Ok(blobs)
            },
            Err(_) => Err(TextError::InvalidKeyLength),
        }
    }
}

impl Ed25519Signer {
    pub fn new(key: [u8; 32]) -> (r: Self)
        ensures
            r@ == key@,
    {
        Ed25519Signer { key }
    }

    /// A private key is exactly 32 bytes.
    pub fn try_new(key: &[u8]) -> (r: Result<Self, TextError>)
        ensures
            key@.len() != SIGNATURE_KEY_LEN ==> r == Err::<Self, TextError>(
                TextError::InvalidKeyLength,
            ),
            key@.len() == SIGNATURE_KEY_LEN ==> (r matches Ok(k) && k@ == key@),
    {
        if key.len() != SIGNATURE_KEY_LEN {
            return Err(TextError::InvalidKeyLength);
        }
        let k = array_32(key);
        assert(key@.subrange(0, 32) =~= key@);
        Ok(Ed25519Signer::new(k))
    }

    /// The public half that belongs to this private key.
    pub fn verifying_key(&self) -> (r: Ed25519Verifier)
        ensures
            r@ == ed25519_public_of(self@),
    {
        let public = ed25519_derive_public(&self.key);
        Ed25519Verifier::new(public)
    }
}

impl TextSign for Ed25519Signer {
    open spec fn signature_of(&self, data: Seq<u8>) -> Seq<u8> {
        ed25519_signature(self@, data)
    }

    /// The signature is accepted under the public key of the same pair.
    fn sign(&self, data: &[u8]) -> (r: Vec<u8>)
        ensures
            r@.len() == SIGNATURE_LEN,
            ed25519_accepts(ed25519_public_of(self@), data@, r@),
    {
        let sig = ed25519_sign(&self.key, data);
        slice_to_vec(sig.as_slice())
    }
}

impl Ed25519Verifier {
    #[verifier::type_invariant]
    spec fn decodes(&self) -> bool {
        ed25519_point_valid(self.key@)
    }

    pub fn new(key: [u8; 32]) -> (r: Self)
        requires
            ed25519_point_valid(key@),
        ensures
            r@ == key@,
    {
        Ed25519Verifier { key }
    }

    /// A public key is exactly 32 bytes that decode to a curve point.
    pub fn try_new(key: &[u8]) -> (r: Result<Self, TextError>)
        ensures
            key@.len() != SIGNATURE_KEY_LEN ==> r == Err::<Self, TextError>(
                TextError::InvalidKeyLength,
            ),
            key@.len() == SIGNATURE_KEY_LEN && !ed25519_point_valid(key@) ==> r == Err::<
                Self,
                TextError,
            >(TextError::InvalidKeyEncoding),
            key@.len() == SIGNATURE_KEY_LEN && ed25519_point_valid(key@) ==> (r matches Ok(k)
                && k@ == key@),
    {
        if key.len() != SIGNATURE_KEY_LEN {
            return Err(TextError::InvalidKeyLength);
        }
        let k = array_32(key);
        assert(key@.subrange(0, 32) =~= key@);
        if !ed25519_public_decodes(&k) {
            return Err(TextError::InvalidKeyEncoding);
        }
        Ok(Ed25519Verifier::new(k))
    }
}

impl TextVerify for Ed25519Verifier {
    open spec fn verify_result(&self, data: Seq<u8>, sig: Seq<u8>) -> Result<bool, TextError> {
        if sig.len() != SIGNATURE_LEN {
            Err(TextError::InvalidSignatureEncoding)
        } else {
            Ok(ed25519_accepts(self@, data, sig))
        }
    }

    fn verify(&self, data: &[u8], sig: &[u8]) -> (r: Result<bool, TextError>) {
        if sig.len() != SIGNATURE_LEN {
            return Err(TextError::InvalidSignatureEncoding);
        }
        let mut s = [0u8; 64];
        let mut i: usize = 0;
        while i < 64
            invariant
                i <= 64,
                sig@.len() == 64,
                s@.len() == 64,
                forall|j: int| 0 <= j < i ==> s@[j] == sig@[j],
            decreases 64 - i,
        {
            s[i] = sig[i];
            i = i + 1;
        }
        assert(s@ =~= sig@);
        proof {
            use_type_invariant(self);
        }
        Ok(ed25519_verify(&self.key, data, &s))
    }
}

impl KeyLoader for Ed25519Signer {
    open spec fn load_error(bytes: Seq<u8>) -> Option<TextError> {
        if bytes.len() != SIGNATURE_KEY_LEN {
            Some(TextError::InvalidKeyLength)
        } else {
            None
        }
    }

    open spec fn loaded_from(&self, bytes: Seq<u8>) -> bool {
        self@ == bytes
    }

    fn load(bytes: &[u8]) -> (r: Result<Self, TextError>) {
        Ed25519Signer::try_new(bytes)
    }
}

impl KeyLoader for Ed25519Verifier {
    open spec fn load_error(bytes: Seq<u8>) -> Option<TextError> {
        if bytes.len() != SIGNATURE_KEY_LEN {
            Some(TextError::InvalidKeyLength)
        } else if !ed25519_point_valid(bytes) {
            Some(TextError::InvalidKeyEncoding)
        } else {
            None
        }
    }

    open spec fn loaded_from(&self, bytes: Seq<u8>) -> bool {
        self@ == bytes
    }

    fn load(bytes: &[u8]) -> (r: Result<Self, TextError>) {
        Ed25519Verifier::try_new(bytes)
    }
}

impl KeyGenerator for Ed25519Signer {
    open spec fn generated(blobs: Seq<Seq<u8>>) -> bool {
        &&& blobs.len() == 2
        &&& blobs[0].len() == SIGNATURE_KEY_LEN
        &&& blobs[1].len() == SIGNATURE_KEY_LEN
        &&& blobs[1] == ed25519_public_of(blobs[0])
        &&& ed25519_point_valid(blobs[1])
    }

    /// The private key first, then its public key.
    fn generate() -> (r: Result<Vec<Vec<u8>>, TextError>)
        ensures
            r is Ok,
    {
        let secret = ed25519_fresh_secret();
        let public = ed25519_derive_public(&secret);
        let sk = slice_to_vec(secret.as_slice());
        let pk = slice_to_vec(public.as_slice());
        let mut blobs: Vec<Vec<u8>> = Vec::new();
        blobs.push(sk);
        blobs.push(pk);
        assert(blobs.deep_view()[0] =~= secret@);
        assert(blobs.deep_view()[1] =~= public@);
        assert(blobs.deep_view() =~= seq![secret@, public@]);
        Ok(blobs)
    }
}

impl Chacha20poly1305Obj {
    pub fn new(key: [u8; 32], nonce: [u8; 12]) -> (r: Self)
        ensures
            r@ == (key@, nonce@),
    {
        Chacha20poly1305Obj { key, nonce }
    }

    pub fn try_new(key: &[u8; 32], nonce: &[u8; 12]) -> (r: Result<Self, TextError>)
        ensures
            r matches Ok(c) && c@ == (key@, nonce@),
    {
        Ok(Chacha20poly1305Obj::new(*key, *nonce))
    }
}

/// What sealing `data` under a key and nonce gives.
pub open spec fn seal_result(key: Seq<u8>, nonce: Seq<u8>, data: Seq<u8>) -> Result<
    Seq<u8>,
    TextError,
> {
    if data.len() < AEAD_MAX_PLAINTEXT {
        Ok(chacha20poly1305_seal(key, nonce, data))
    } else {
        Err(TextError::InputTooLong)
    }
}

/// Whether `plaintext` is what `ciphertext` was sealed from under a key and nonce.
pub open spec fn seals_to(key: Seq<u8>, nonce: Seq<u8>, plaintext: Seq<u8>, ciphertext: Seq<u8>) -> bool {
    plaintext.len() < AEAD_MAX_PLAINTEXT && chacha20poly1305_seal(key, nonce, plaintext) == ciphertext
}

/// What opening `ciphertext` under a key and nonce gives: the plaintext it was
/// sealed from, or an authentication failure if there is none.
pub open spec fn open_result(key: Seq<u8>, nonce: Seq<u8>, ciphertext: Seq<u8>) -> Result<
    Seq<u8>,
    TextError,
> {
    if exists|p: Seq<u8>| #[trigger] seals_to(key, nonce, p, ciphertext) {
        Ok(choose|p: Seq<u8>| #[trigger] seals_to(key, nonce, p, ciphertext))
    } else {
        Err(TextError::AuthenticationFailed)
    }
}

impl TextEncrypt for Chacha20poly1305Obj {
    open spec fn encrypt_result(&self, data: Seq<u8>) -> Result<Seq<u8>, TextError> {
        seal_result(self@.0, self@.1, data)
    }

    fn encrypt(&self, data: &[u8]) -> (r: Result<Vec<u8>, TextError>)
        ensures
            r matches Ok(c) ==> c@.len() == data@.len() + AEAD_TAG_LEN,
    {
        match chacha20poly1305_encrypt(&self.key, &self.nonce, data) {
            Some(c) => Ok(c),
            None => Err(TextError::InputTooLong),
        }
    }
}

impl TextDecrypt for Chacha20poly1305Obj {
    open spec fn decrypt_result(&self, data: Seq<u8>) -> Result<Seq<u8>, TextError> {
        open_result(self@.0, self@.1, data)
    }

    /// Any plaintext returned is authenticated: sealing it again gives `data`.
    fn decrypt(&self, data: &[u8]) -> (r: Result<Vec<u8>, TextError>)
        ensures
            r matches Ok(p) ==> seals_to(self@.0, self@.1, p@, data@),
            forall|p: Seq<u8>| #[trigger]
                seals_to(self@.0, self@.1, p, data@) ==> (r matches Ok(q) && q@ == p),
            r is Err ==> r == Err::<Vec<u8>, TextError>(TextError::AuthenticationFailed),
    {
        let opened = chacha20poly1305_decrypt(&self.key, &self.nonce, data);
        proof {
            assert(forall|p: Seq<u8>| #[trigger]
                seals_to(self@.0, self@.1, p, data@) ==> chacha20poly1305_seal(
                    self.key@,
                    self.nonce@,
                    p,
                ) == data@);
            if opened is Some {
                assert(seals_to(self@.0, self@.1, opened.unwrap()@, data@));
            }
        }
        match opened {
            Some(p) => Ok(p),
            None => Err(TextError::AuthenticationFailed),
        }
    }
}

/// Cuts or zero-pads the bytes of `input` to 32 bytes.
pub fn str_to_u8_array_32(input: &str) -> (r: [u8; 32])
    ensures
        r@ == fit_bytes(input.spec_bytes(), 32),
{
    let bytes = input.as_bytes();
    let mut r = [0u8; 32];
    let mut i: usize = 0;
    while i < 32 && i < bytes.len()
        invariant
            i <= 32,
            i <= bytes@.len(),
            bytes@ == input.spec_bytes(),
            r@.len() == 32,
            forall|j: int| 0 <= j < i ==> r@[j] == bytes@[j],
            forall|j: int| i <= j < 32 ==> r@[j] == 0,
        decreases 32 - i,
    {
        r[i] = bytes[i];
        i = i + 1;
    }
    assert(r@ =~= fit_bytes(input.spec_bytes(), 32));
    r
}

/// Cuts or zero-pads the bytes of `input` to 12 bytes.
pub fn str_to_u8_array_12(input: &str) -> (r: [u8; 12])
    ensures
        r@ == fit_bytes(input.spec_bytes(), 12),
{
    let bytes = input.as_bytes();
    let mut r = [0u8; 12];
    let mut i: usize = 0;
    while i < 12 && i < bytes.len()
        invariant
            i <= 12,
            i <= bytes@.len(),
            bytes@ == input.spec_bytes(),
            r@.len() == 12,
            forall|j: int| 0 <= j < i ==> r@[j] == bytes@[j],
            forall|j: int| i <= j < 12 ==> r@[j] == 0,
        decreases 12 - i,
    {
        r[i] = bytes[i];
        i = i + 1;
    }
    assert(r@ =~= fit_bytes(input.spec_bytes(), 12));
    r
}

/// Bytes in a signature of the given family.
pub open spec fn signature_len(format: TextSignFormat) -> nat {
    match format {
        TextSignFormat::Blake3 => MAC_LEN as nat,
        TextSignFormat::Ed25519 => SIGNATURE_LEN as nat,
    }
}

/// Characters in the text of a signature of the given family: the unpadded
/// encoding of 32 or 64 bytes.
pub open spec fn signature_text_len(format: TextSignFormat) -> nat {
    match format {
        TextSignFormat::Blake3 => 43,
        TextSignFormat::Ed25519 => 86,
    }
}

/// The signature bytes that `key` gives `data`, or why there are none.
pub open spec fn sign_result(format: TextSignFormat, key: Seq<u8>, data: Seq<u8>) -> Result<Seq<u8>, TextError> {
    match format {
        TextSignFormat::Blake3 => if key.len() < MAC_KEY_LEN {
            Err(TextError::InvalidKeyLength)
        } else {
            Ok(blake3_keyed(key.subrange(0, 32), data))
        },
        TextSignFormat::Ed25519 => if key.len() != SIGNATURE_KEY_LEN {
            Err(TextError::InvalidKeyLength)
        } else {
            Ok(ed25519_signature(key, data))
        },
    }
}

/// The answer that `key` gives for the signature bytes `sig` on `data`.
pub open spec fn verify_result(format: TextSignFormat, key: Seq<u8>, data: Seq<u8>, sig: Seq<u8>) -> Result<bool, TextError> {
    match format {
        TextSignFormat::Blake3 => if key.len() < MAC_KEY_LEN {
            Err(TextError::InvalidKeyLength)
        } else {
            Ok(blake3_keyed(key.subrange(0, 32), data) == sig)
        },
        TextSignFormat::Ed25519 => if key.len() != SIGNATURE_KEY_LEN {
            Err(TextError::InvalidKeyLength)
        } else if !ed25519_point_valid(key) {
            Err(TextError::InvalidKeyEncoding)
        } else if sig.len() != SIGNATURE_LEN {
            Err(TextError::InvalidSignatureEncoding)
        } else {
            Ok(ed25519_accepts(key, data, sig))
        },
    }
}

/// Whether `blobs` have the shape of freshly generated key material of a family.
pub open spec fn generated_keys(format: TextSignFormat, blobs: Seq<Seq<u8>>) -> bool {
    match format {
        TextSignFormat::Blake3 => <Blake3 as KeyGenerator>::generated(blobs),
        TextSignFormat::Ed25519 => <Ed25519Signer as KeyGenerator>::generated(blobs),
    }
}

/// The AEAD key that a key string stands for: its bytes, cut or zero-padded to 32.
pub open spec fn aead_key(key: &str) -> Seq<u8> {
    fit_bytes(key.spec_bytes(), 32)
}

/// The AEAD nonce that a nonce string stands for: its bytes, cut or zero-padded to 12.
pub open spec fn aead_nonce(nonce: &str) -> Seq<u8> {
    fit_bytes(nonce.spec_bytes(), 12)
}

/// Signs `data` with the key bytes of a key source and encodes the signature.
/// A keyed-hash key takes the first 32 of at least 32 bytes; a private signature key
/// is exactly 32 bytes.
pub fn process_text_sign(data: &[u8], key: &[u8], format: TextSignFormat) -> (r: Result<String, TextError>)
    ensures
        sign_result(format, key@, data@) matches Err(e) ==> r == Err::<String, TextError>(e),
        sign_result(format, key@, data@) matches Ok(sig) ==> (r matches Ok(t) && t@
            == base64_url_unpadded(sig) && trimmed(t@) == t@),
        sign_result(format, key@, data@) matches Ok(sig) ==> sig.len() == signature_len(format),
        r matches Ok(t) ==> all_url_safe(t@) && t@.len() == signature_text_len(format),
        format == TextSignFormat::Ed25519 && key@.len() == SIGNATURE_KEY_LEN ==> ed25519_accepts(
            ed25519_public_of(key@),
            data@,
            ed25519_signature(key@, data@),
        ),
{
    let signed = match format {
        TextSignFormat::Blake3 => {
            let signer = Blake3::load(key)?;
            signer.sign(data)
        },
        TextSignFormat::Ed25519 => {
            let signer = Ed25519Signer::load(key)?;
            signer.sign(data)
        },
    };
    let t = encode(signed.as_slice());
    assert((4 * 32 + 2) / 3 == 43 && (4 * 64 + 2) / 3 == 86) by (nonlinear_arith);
    Ok(t)
}

/// Decodes the signature text and checks it on `data` with the key bytes of a key
/// source. A signature that is well formed but does not match is `Ok(false)`.
pub fn process_text_verify(data: &[u8], key: &[u8], format: TextSignFormat, sig: &str) -> (r: Result<bool, TextError>)
    ensures
        (forall|b: Seq<u8>| base64_url_unpadded(b) != trimmed(sig@)) ==> r == Err::<bool, TextError>(
            TextError::InvalidEncoding,
        ),
        !url_safe_shape(trimmed(sig@)) ==> r == Err::<bool, TextError>(TextError::InvalidEncoding),
        forall|b: Seq<u8>| #[trigger] base64_url_unpadded(b) == trimmed(sig@) ==> r == verify_result(
            format,
            key@,
            data@,
            b,
        ),
        forall|b: Seq<u8>| #[trigger] base64_url_unpadded(b) == trimmed(sig@) && format
            == TextSignFormat::Blake3 && key@.len() >= MAC_KEY_LEN && b.len() != MAC_LEN ==> r == Ok::<
            bool,
            TextError,
        >(false),
{
    let sig = decode(sig)?;
    match format {
        TextSignFormat::Blake3 => {
            let verifier = Blake3::load(key)?;
            verifier.verify(data, sig.as_slice())
        },
        TextSignFormat::Ed25519 => {
            let verifier = Ed25519Verifier::load(key)?;
            verifier.verify(data, sig.as_slice())
        },
    }
}

/// Fresh key material of a family, as blobs for the caller to store: one passphrase
/// for the keyed hash; the private and then the public key for signatures.
pub fn process_generate_key(format: TextSignFormat) -> (r: Result<Vec<Vec<u8>>, TextError>)
    ensures
        r matches Ok(v) && generated_keys(format, v.deep_view()),
{
    match format {
        TextSignFormat::Blake3 => Blake3::generate(),
        TextSignFormat::Ed25519 => Ed25519Signer::generate(),
    }
}

/// Encrypts `data` under the key and nonce strings and encodes the ciphertext.
pub fn process_encrypt(data: &[u8], key: &str, nonce: &str, format: TextCryptFormat) -> (r: Result<String, TextError>)
    ensures
        seal_result(aead_key(key), aead_nonce(nonce), data@) matches Err(e) ==> r == Err::<String, TextError>(e),
        seal_result(aead_key(key), aead_nonce(nonce), data@) matches Ok(c) ==> (r matches Ok(t)
            && t@ == base64_url_unpadded(c) && trimmed(t@) == t@),
        seal_result(aead_key(key), aead_nonce(nonce), data@) matches Ok(c) ==> c.len() == data@.len()
            + AEAD_TAG_LEN,
        r matches Ok(t) ==> all_url_safe(t@),
{
    let encrypted = match format {
        TextCryptFormat::Chacha20poly1305 => {
            let key = str_to_u8_array_32(key);
            let nonce = str_to_u8_array_12(nonce);
            let c = Chacha20poly1305Obj::try_new(&key, &nonce)?;
            c.encrypt(data)?
        },
    };
    Ok(encode(encrypted.as_slice()))
}

/// Decodes the ciphertext text and decrypts it under the key and nonce strings.
/// Only authenticated plaintext comes back: decrypting what `process_encrypt`
/// produced under the same key and nonce gives the original bytes, and anything
/// else that decodes fails with `AuthenticationFailed`.
pub fn process_decrypt(text: &str, key: &str, nonce: &str, format: TextCryptFormat) -> (r: Result<Vec<u8>, TextError>)
    ensures
        (forall|b: Seq<u8>| base64_url_unpadded(b) != trimmed(text@)) ==> r == Err::<Vec<u8>, TextError>(
            TextError::InvalidEncoding,
        ),
        !url_safe_shape(trimmed(text@)) ==> r == Err::<Vec<u8>, TextError>(TextError::InvalidEncoding),
        forall|b: Seq<u8>| #[trigger] base64_url_unpadded(b) == trimmed(text@) ==> bytes_result(r)
            == open_result(aead_key(key), aead_nonce(nonce), b),
        r matches Ok(p) ==> seals_to(aead_key(key), aead_nonce(nonce), p@, chacha20poly1305_seal(aead_key(key), aead_nonce(nonce), p@))
            && base64_url_unpadded(chacha20poly1305_seal(aead_key(key), aead_nonce(nonce), p@)) == trimmed(text@),
        forall|p: Seq<u8>| p.len() < AEAD_MAX_PLAINTEXT && #[trigger] base64_url_unpadded(
            chacha20poly1305_seal(aead_key(key), aead_nonce(nonce), p),
        ) == trimmed(text@) ==> (r matches Ok(q) && q@ == p),
{
    let data = decode(text)?;
    match format {
        TextCryptFormat::Chacha20poly1305 => {
            let k = str_to_u8_array_32(key);
            let n = str_to_u8_array_12(nonce);
            let c = Chacha20poly1305Obj::try_new(&k, &n)?;
            let opened = c.decrypt(data.as_slice());
            proof {
                assert(forall|p: Seq<u8>| #[trigger] base64_url_unpadded(
                    chacha20poly1305_seal(aead_key(key), aead_nonce(nonce), p),
                ) == trimmed(text@) ==> chacha20poly1305_seal(k@, n@, p) == data@);
                assert forall|p: Seq<u8>| p.len() < AEAD_MAX_PLAINTEXT && #[trigger] base64_url_unpadded(
                    chacha20poly1305_seal(aead_key(key), aead_nonce(nonce), p),
                ) == trimmed(text@) implies (opened matches Ok(q) && q@ == p) by {
                    assert(seals_to(k@, n@, p, data@));
                }
                if exists|p: Seq<u8>| #[trigger] seals_to(k@, n@, p, data@) {
                    let p = choose|p: Seq<u8>| #[trigger] seals_to(k@, n@, p, data@);
                    assert(opened matches Ok(q) && q@ == p);
                }
            }
            opened
        },
    }
}

/// A keyed-hash signature verifies on the stream it was made from, under the same key.
pub proof fn lemma_keyed_hash_sign_then_verify(key: Seq<u8>, data: Seq<u8>)
    requires
        key.len() >= MAC_KEY_LEN,
    ensures
        sign_result(TextSignFormat::Blake3, key, data) matches Ok(sig) && verify_result(
            TextSignFormat::Blake3,
            key,
            data,
            sig,
        ) == Ok::<bool, TextError>(true),
{
}

/// A keyed-hash signature made on one stream does not verify on another stream,
/// unless the two streams' digests under the key coincide.
pub proof fn lemma_keyed_hash_other_stream(key: Seq<u8>, s1: Seq<u8>, s2: Seq<u8>)
    requires
        key.len() >= MAC_KEY_LEN,
        blake3_keyed(key.subrange(0, 32), s1) != blake3_keyed(key.subrange(0, 32), s2),
    ensures
        sign_result(TextSignFormat::Blake3, key, s1) matches Ok(sig) && verify_result(
            TextSignFormat::Blake3,
            key,
            s2,
            sig,
        ) == Ok::<bool, TextError>(false),
{
}

/// The public-key verify never accepts bytes of a keyed-hash signature's length:
/// it ends in an error, whatever the key and the stream.
pub proof fn lemma_keyed_hash_signature_refused_by_public_key(key: Seq<u8>, data: Seq<u8>, sig: Seq<u8>)
    requires
        sig.len() == MAC_LEN,
    ensures
        verify_result(TextSignFormat::Ed25519, key, data, sig) is Err,
{
}

/// Changing one byte of a ciphertext never lets it open to the plaintext it was
/// sealed from: opening the changed bytes either fails or gives a plaintext that
/// seals to exactly those bytes.
pub proof fn lemma_changed_byte_never_opens_to_original(
    key: Seq<u8>,
    nonce: Seq<u8>,
    plaintext: Seq<u8>,
    i: int,
    b: u8,
)
    requires
        0 <= i < chacha20poly1305_seal(key, nonce, plaintext).len(),
        b != chacha20poly1305_seal(key, nonce, plaintext)[i],
    ensures
        open_result(key, nonce, chacha20poly1305_seal(key, nonce, plaintext).update(i, b))
            != Ok::<Seq<u8>, TextError>(plaintext),
        open_result(key, nonce, chacha20poly1305_seal(key, nonce, plaintext).update(i, b)) matches Ok(q)
            ==> chacha20poly1305_seal(key, nonce, q) == chacha20poly1305_seal(key, nonce, plaintext).update(i, b),
{
    let c = chacha20poly1305_seal(key, nonce, plaintext);
    let c2 = c.update(i, b);
    assert(c2[i] != c[i]);
    assert(c2 != c);
}

} // verus!
