use rcli::codec::{decode, encode, trim_white_space};
use rcli::{process_decode, process_encode, Base64Format, TextError};

#[test]
fn url_safe_encoding_of_known_bytes() {
    assert_eq!(encode(b"hello internet~"), "aGVsbG8gaW50ZXJuZXR-");
    assert_eq!(encode(&[251, 255, 191]), "-_-_");
    assert_eq!(encode(b""), "");
}

#[test]
fn decode_inverts_encode() {
    let mut all: Vec<u8> = Vec::new();
    for b in 0..=255u8 {
        all.push(b);
    }
    let samples: Vec<Vec<u8>> = vec![
        vec![],
        vec![0],
        vec![255, 254],
        b"Hello World".to_vec(),
        all,
    ];
    for s in samples {
        assert_eq!(decode(&encode(&s)), Ok(s.clone()));
    }
}

#[test]
fn decode_trims_surrounding_white_space() {
    assert_eq!(decode("aGVsbG8\n"), Ok(b"hello".to_vec()));
    assert_eq!(decode("  \taGVsbG8 \r\n"), Ok(b"hello".to_vec()));
}

#[test]
fn decode_rejects_malformed_text() {
    assert_eq!(decode("a$b"), Err(TextError::InvalidEncoding));
    assert_eq!(decode("A"), Err(TextError::InvalidEncoding));
    assert_eq!(decode("aGk="), Err(TextError::InvalidEncoding));
    assert_eq!(decode("aGk+"), Err(TextError::InvalidEncoding));
    assert_eq!(decode("aGl"), Err(TextError::InvalidEncoding));
}

#[test]
fn trimming_white_space() {
    assert_eq!(trim_white_space("  ab c \n"), "ab c");
    assert_eq!(trim_white_space("\u{a0}x\u{3000}"), "x");
    assert_eq!(trim_white_space(" \t "), "");
    assert_eq!(trim_white_space("abc"), "abc");
}

#[test]
fn standard_base64_commands() {
    assert_eq!(process_encode(b"hello world~", Base64Format::Standard), "aGVsbG8gd29ybGR+");
    assert_eq!(process_encode(b"hi", Base64Format::Standard), "aGk=");
    assert_eq!(process_encode(b"hi", Base64Format::UrlSafe), "aGk");
    assert_eq!(process_decode("aGk=\n", Base64Format::Standard), Ok(b"hi".to_vec()));
    assert_eq!(process_decode("aGk", Base64Format::UrlSafe), Ok(b"hi".to_vec()));
    assert_eq!(
        process_decode("aGk", Base64Format::Standard),
        Err(TextError::InvalidEncoding)
    );
    assert_eq!(
        process_decode("aGk=", Base64Format::UrlSafe),
        Err(TextError::InvalidEncoding)
    );
}

#[test]
fn base64_commands_round_trip() {
    let mut all: Vec<u8> = Vec::new();
    for b in 0..=255u8 {
        all.push(b);
    }
    for data in [Vec::new(), vec![1u8], vec![1, 2], all] {
        for format in [Base64Format::Standard, Base64Format::UrlSafe] {
            let text = process_encode(&data, format);
            assert_eq!(process_decode(&text, format), Ok(data.clone()));
        }
    }
}

#[test]
fn base64_commands_refuse_foreign_characters() {
    assert_eq!(
        process_decode("aG-k", Base64Format::Standard),
        Err(TextError::InvalidEncoding)
    );
    assert_eq!(
        process_decode("aG_k", Base64Format::UrlSafe),
        Err(TextError::InvalidEncoding)
    );
    assert_eq!(
        process_decode("aGk=a", Base64Format::Standard),
        Err(TextError::InvalidEncoding)
    );
}
