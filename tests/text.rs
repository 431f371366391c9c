use rcli::codec::{decode, encode};
use rcli::{
    process_decrypt, process_encrypt, process_generate_key, process_text_sign,
    process_text_verify, Blake3, Chacha20poly1305Obj, Ed25519Signer, Ed25519Verifier,
    KeyGenerator, KeyLoader, TextCryptFormat, TextDecrypt, TextEncrypt, TextError,
    TextSign, TextSignFormat, TextVerify,
};

const MAC_KEY: &[u8; 32] = b"0123456789abcdefghijklmnopqrstuv";

const RFC8032_SECRET: [u8; 32] = [
    157, 97, 177, 157, 239, 253, 90, 96, 186, 132, 74, 244, 146, 236, 44, 196, 68, 73, 197, 105,
    123, 50, 105, 25, 112, 59, 172, 3, 28, 174, 127, 96,
];

const RFC8032_PUBLIC: [u8; 32] = [
    215, 90, 152, 1, 130, 177, 10, 183, 213, 75, 254, 211, 201, 100, 7, 58, 14, 225, 114, 243,
    218, 166, 35, 37, 175, 2, 26, 104, 247, 7, 81, 26,
];

const AEAD_KEY: &str = "an example very very secret key.";

#[test]
fn test_blake_sign_verify() {
    let data = b"Hello World";
    let blake3 = Blake3::load(MAC_KEY).unwrap();
    let sig = blake3.sign(&data[..]);
    assert!(blake3.verify(&data[..], &sig).unwrap());
}

#[test]
fn test_ed25519_sign_verify() {
    let data = b"Hello World";
    let keys = Ed25519Signer::generate().unwrap();
    let sk = Ed25519Signer::load(&keys[0]).unwrap();
    let pk = Ed25519Verifier::load(&keys[1]).unwrap();
    let sig = sk.sign(&data[..]);
    assert!(pk.verify(&data[..], &sig).unwrap());
}

#[test]
fn mac_key_generate_sign_verify_scenario() {
    let keys = process_generate_key(TextSignFormat::Blake3).unwrap();
    assert_eq!(keys.len(), 1);
    assert_eq!(keys[0].len(), 32);
    assert!(keys[0].iter().all(|b| b.is_ascii_graphic()));
    let sig = process_text_sign(b"Hello World", &keys[0], TextSignFormat::Blake3).unwrap();
    assert_eq!(
        process_text_verify(b"Hello World", &keys[0], TextSignFormat::Blake3, &sig),
        Ok(true)
    );
    assert_eq!(
        process_text_verify(b"Hello World!", &keys[0], TextSignFormat::Blake3, &sig),
        Ok(false)
    );
}

#[test]
fn signature_keypair_generate_sign_verify_scenario() {
    let keys = process_generate_key(TextSignFormat::Ed25519).unwrap();
    assert_eq!(keys.len(), 2);
    assert_eq!(keys[0].len(), 32);
    assert_eq!(keys[1].len(), 32);
    let sig = process_text_sign(b"Hello World", &keys[0], TextSignFormat::Ed25519).unwrap();
    assert_eq!(
        process_text_verify(b"Hello World", &keys[1], TextSignFormat::Ed25519, &sig),
        Ok(true)
    );
    assert_eq!(
        process_text_verify(b"Hello World!", &keys[1], TextSignFormat::Ed25519, &sig),
        Ok(false)
    );
}

#[test]
fn keypairs_differ_between_calls() {
    let a = process_generate_key(TextSignFormat::Ed25519).unwrap();
    let b = process_generate_key(TextSignFormat::Ed25519).unwrap();
    assert_ne!(a[0], b[0]);
    assert_ne!(a[1], b[1]);
}

#[test]
fn ed25519_known_answer() {
    let sig = process_text_sign(b"", &RFC8032_SECRET, TextSignFormat::Ed25519).unwrap();
    assert_eq!(
        sig,
        "5VZDAMNgrHKQhuLMgG6CioSHfx645dl02HPgZSJJAVVfuIIVkKM7rMYeOXAc-bRr0lv18FlbviRlUUFDjnoQCw"
    );
    assert_eq!(
        process_text_verify(b"", &RFC8032_PUBLIC, TextSignFormat::Ed25519, &sig),
        Ok(true)
    );
    let signer = Ed25519Signer::try_new(&RFC8032_SECRET).unwrap();
    let derived = signer.verifying_key();
    assert!(derived.verify(b"", &decode(&sig).unwrap()).unwrap());
}

#[test]
fn keyed_hash_signature_shape() {
    let sig = process_text_sign(&[7u8; 100], MAC_KEY, TextSignFormat::Blake3).unwrap();
    let bytes = decode(&sig).unwrap();
    assert_eq!(bytes.len(), 32);
    assert_ne!(bytes, vec![7u8; 32]);
    assert_ne!(&bytes[..], &MAC_KEY[..]);
    let again = process_text_sign(&[7u8; 100], MAC_KEY, TextSignFormat::Blake3).unwrap();
    assert_eq!(sig, again);
    let other_key = process_text_sign(&[7u8; 100], &[1u8; 32], TextSignFormat::Blake3).unwrap();
    assert_ne!(sig, other_key);
}

#[test]
fn mac_key_uses_first_32_bytes() {
    let mut long = MAC_KEY.to_vec();
    long.extend_from_slice(b"ignored tail");
    assert_eq!(
        process_text_sign(b"data", &long, TextSignFormat::Blake3),
        process_text_sign(b"data", MAC_KEY, TextSignFormat::Blake3)
    );
}

#[test]
fn signatures_on_other_streams_do_not_verify() {
    let sig = process_text_sign(b"stream one", &RFC8032_SECRET, TextSignFormat::Ed25519).unwrap();
    assert_eq!(
        process_text_verify(b"stream two", &RFC8032_PUBLIC, TextSignFormat::Ed25519, &sig),
        Ok(false)
    );
    let mac = process_text_sign(b"stream one", MAC_KEY, TextSignFormat::Blake3).unwrap();
    assert_eq!(
        process_text_verify(b"stream two", MAC_KEY, TextSignFormat::Blake3, &mac),
        Ok(false)
    );
}

#[test]
fn signatures_do_not_cross_algorithms() {
    let mac = process_text_sign(b"Hello World", &RFC8032_PUBLIC, TextSignFormat::Blake3).unwrap();
    assert_eq!(
        process_text_verify(b"Hello World", &RFC8032_PUBLIC, TextSignFormat::Ed25519, &mac),
        Err(TextError::InvalidSignatureEncoding)
    );
    let sig = process_text_sign(b"Hello World", &RFC8032_SECRET, TextSignFormat::Ed25519).unwrap();
    assert_eq!(
        process_text_verify(b"Hello World", &RFC8032_SECRET, TextSignFormat::Blake3, &sig),
        Ok(false)
    );
}

#[test]
fn short_keys_are_refused() {
    assert!(matches!(Blake3::load(&[0u8; 31]), Err(TextError::InvalidKeyLength)));
    assert!(matches!(Blake3::try_new(&[]), Err(TextError::InvalidKeyLength)));
    assert!(matches!(Ed25519Signer::load(&[0u8; 31]), Err(TextError::InvalidKeyLength)));
    assert!(matches!(Ed25519Signer::load(&[0u8; 33]), Err(TextError::InvalidKeyLength)));
    assert!(matches!(Ed25519Verifier::load(&[0u8; 31]), Err(TextError::InvalidKeyLength)));
    assert_eq!(
        process_text_sign(b"x", &[0u8; 31], TextSignFormat::Blake3),
        Err(TextError::InvalidKeyLength)
    );
    assert_eq!(
        process_text_sign(b"x", &[0u8; 31], TextSignFormat::Ed25519),
        Err(TextError::InvalidKeyLength)
    );
    let sig = encode(&[0u8; 64]);
    assert_eq!(
        process_text_verify(b"x", &[0u8; 16], TextSignFormat::Blake3, &sig),
        Err(TextError::InvalidKeyLength)
    );
}

#[test]
fn public_key_that_is_no_point_is_refused() {
    let mut bad = [0u8; 32];
    bad[0] = 2;
    assert!(matches!(Ed25519Verifier::load(&bad), Err(TextError::InvalidKeyEncoding)));
    let sig = encode(&[0u8; 64]);
    assert_eq!(
        process_text_verify(b"x", &bad, TextSignFormat::Ed25519, &sig),
        Err(TextError::InvalidKeyEncoding)
    );
}

#[test]
fn malformed_signature_text_is_refused() {
    assert_eq!(
        process_text_verify(b"x", MAC_KEY, TextSignFormat::Blake3, "not base64!"),
        Err(TextError::InvalidEncoding)
    );
    let short = encode(&[1u8; 10]);
    assert_eq!(
        process_text_verify(b"x", &RFC8032_PUBLIC, TextSignFormat::Ed25519, &short),
        Err(TextError::InvalidSignatureEncoding)
    );
}

#[test]
fn encrypt_decrypt_scenario() {
    let text = process_encrypt(
        b"secret message",
        AEAD_KEY,
        "000000000000",
        TextCryptFormat::Chacha20poly1305,
    )
    .unwrap();
    assert_eq!(decode(&text).unwrap().len(), b"secret message".len() + 16);
    assert_ne!(decode(&text).unwrap()[..14], b"secret message"[..]);
    assert_eq!(
        process_decrypt(&text, AEAD_KEY, "000000000000", TextCryptFormat::Chacha20poly1305),
        Ok(b"secret message".to_vec())
    );
    assert_eq!(
        process_decrypt(&text, AEAD_KEY, "000000000001", TextCryptFormat::Chacha20poly1305),
        Err(TextError::AuthenticationFailed)
    );
}

#[test]
fn decrypt_with_other_key_fails() {
    let text = process_encrypt(b"payload", AEAD_KEY, "n", TextCryptFormat::Chacha20poly1305)
        .unwrap();
    assert_eq!(
        process_decrypt(&text, "another key", "n", TextCryptFormat::Chacha20poly1305),
        Err(TextError::AuthenticationFailed)
    );
    let with_newline = format!("{}\n", text);
    assert_eq!(
        process_decrypt(&with_newline, AEAD_KEY, "n", TextCryptFormat::Chacha20poly1305),
        Ok(b"payload".to_vec())
    );
}

#[test]
fn empty_plaintext_round_trip() {
    let text = process_encrypt(b"", "k", "", TextCryptFormat::Chacha20poly1305).unwrap();
    assert_eq!(decode(&text).unwrap().len(), 16);
    assert_eq!(
        process_decrypt(&text, "k", "", TextCryptFormat::Chacha20poly1305),
        Ok(Vec::new())
    );
}

#[test]
fn every_flipped_byte_is_detected() {
    let text = process_encrypt(
        b"secret message",
        AEAD_KEY,
        "000000000000",
        TextCryptFormat::Chacha20poly1305,
    )
    .unwrap();
    let bytes = decode(&text).unwrap();
    for i in 0..bytes.len() {
        let mut tampered = bytes.clone();
        tampered[i] ^= 0x01;
        assert_eq!(
            process_decrypt(
                &encode(&tampered),
                AEAD_KEY,
                "000000000000",
                TextCryptFormat::Chacha20poly1305
            ),
            Err(TextError::AuthenticationFailed)
        );
    }
    assert_eq!(
        process_decrypt("@@@", AEAD_KEY, "000000000000", TextCryptFormat::Chacha20poly1305),
        Err(TextError::InvalidEncoding)
    );
}

#[test]
fn key_and_nonce_are_cut_or_padded() {
    let long_key = format!("{}{}", AEAD_KEY, "tail that is cut off");
    let a = process_encrypt(b"m", AEAD_KEY, "abc", TextCryptFormat::Chacha20poly1305).unwrap();
    let b = process_encrypt(b"m", &long_key, "abc", TextCryptFormat::Chacha20poly1305).unwrap();
    assert_eq!(a, b);
    let padded = process_encrypt(
        b"m",
        AEAD_KEY,
        "abc\0\0\0\0\0\0\0\0\0",
        TextCryptFormat::Chacha20poly1305,
    )
    .unwrap();
    assert_eq!(a, padded);
    assert_eq!(rcli::text::str_to_u8_array_12("abcdefghijklmnop"), *b"abcdefghijkl");
    let mut expected = [0u8; 32];
    expected[..2].copy_from_slice(b"hi");
    assert_eq!(rcli::text::str_to_u8_array_32("hi"), expected);
}

#[test]
fn cipher_object_round_trip() {
    let key = [9u8; 32];
    let nonce = [3u8; 12];
    let c = Chacha20poly1305Obj::try_new(&key, &nonce).unwrap();
    let sealed = c.encrypt(b"abc").unwrap();
    assert_eq!(sealed.len(), 19);
    assert_eq!(c.decrypt(&sealed), Ok(b"abc".to_vec()));
    assert_eq!(c.decrypt(&sealed[..18]), Err(TextError::AuthenticationFailed));
    assert_eq!(c.decrypt(&[]), Err(TextError::AuthenticationFailed));
}

#[test]
fn error_messages() {
    assert_eq!(TextError::AuthenticationFailed.message(), "authentication failed");
    assert_eq!(TextError::InvalidKeyLength.message(), "invalid key length");
}

fn url_safe(t: &str) -> bool {
    t.chars().all(|c| c.is_ascii_alphanumeric() || c == '-' || c == '_')
}

#[test]
fn signature_texts_have_fixed_shape() {
    let mac = process_text_sign(b"Hello World", MAC_KEY, TextSignFormat::Blake3).unwrap();
    assert_eq!(mac.len(), 43);
    assert!(url_safe(&mac));
    let sig = process_text_sign(b"Hello World", &RFC8032_SECRET, TextSignFormat::Ed25519).unwrap();
    assert_eq!(sig.len(), 86);
    assert!(url_safe(&sig));
    assert_eq!(
        process_text_sign(b"Hello World", &RFC8032_SECRET, TextSignFormat::Ed25519),
        Ok(sig)
    );
}

#[test]
fn signature_text_outside_the_alphabet_is_refused() {
    let mac = process_text_sign(b"x", MAC_KEY, TextSignFormat::Blake3).unwrap();
    let plus = format!("+{}", &mac[1..]);
    assert_eq!(
        process_text_verify(b"x", MAC_KEY, TextSignFormat::Blake3, &plus),
        Err(TextError::InvalidEncoding)
    );
    let padded = format!("{}=", mac);
    assert_eq!(
        process_text_verify(b"x", MAC_KEY, TextSignFormat::Blake3, &padded),
        Err(TextError::InvalidEncoding)
    );
    assert_eq!(
        process_text_verify(b"x", &RFC8032_PUBLIC, TextSignFormat::Ed25519, "abcde"),
        Err(TextError::InvalidEncoding)
    );
}

#[test]
fn ciphertext_text_shape() {
    let text = process_encrypt(b"secret message", AEAD_KEY, "n", TextCryptFormat::Chacha20poly1305)
        .unwrap();
    assert!(url_safe(&text));
    assert_eq!(decode(&text).unwrap().len(), 14 + 16);
    assert_eq!(
        process_decrypt("abcde", AEAD_KEY, "n", TextCryptFormat::Chacha20poly1305),
        Err(TextError::InvalidEncoding)
    );
}
