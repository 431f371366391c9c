use rcli::{process_genpass, PasswordError};

const SYMBOLS: &str = "!@#$%^&*~,.;";

#[test]
fn password_has_every_class_asked_for() {
    for _ in 0..20 {
        let p = process_genpass(16, false, false, false, false).unwrap();
        assert_eq!(p.chars().count(), 16);
        assert!(p.chars().any(|c| c.is_ascii_uppercase()));
        assert!(p.chars().any(|c| c.is_ascii_lowercase()));
        assert!(p.chars().any(|c| c.is_ascii_digit()));
        assert!(p.chars().any(|c| SYMBOLS.contains(c)));
    }
}

#[test]
fn password_keeps_to_the_classes_asked_for() {
    let p = process_genpass(12, true, true, false, true).unwrap();
    assert_eq!(p.len(), 12);
    assert!(p.chars().all(|c| c.is_ascii_digit()));
    let q = process_genpass(4, false, true, true, true).unwrap();
    assert!(q.chars().all(|c| c.is_ascii_uppercase()));
}

#[test]
fn password_of_exactly_the_class_count() {
    let p = process_genpass(4, false, false, false, false).unwrap();
    assert_eq!(p.len(), 4);
    assert!(p.chars().any(|c| SYMBOLS.contains(c)));
}

#[test]
fn password_shorter_than_the_class_count_fails() {
    assert_eq!(
        process_genpass(3, false, false, false, false),
        Err(PasswordError::TooShort)
    );
    assert_eq!(process_genpass(0, false, true, true, true), Err(PasswordError::TooShort));
}

#[test]
fn password_from_no_class() {
    assert_eq!(process_genpass(0, true, true, true, true), Ok(String::new()));
    assert_eq!(
        process_genpass(5, true, true, true, true),
        Err(PasswordError::EmptyAlphabet)
    );
}

#[test]
fn longest_password() {
    let p = process_genpass(255, false, false, false, false).unwrap();
    assert_eq!(p.len(), 255);
}

#[test]
fn options_give_a_password_and_its_strength() {
    let opts = rcli::GenPassOpts {
        length: 24,
        no_uppercase: false,
        no_lowercase: false,
        no_number: false,
        no_symbol: false,
    };
    let (p, score) = opts.generate().unwrap();
    assert_eq!(p.len(), 24);
    let score = score.unwrap();
    assert!(score <= 4);
    assert!(score >= 3);
    let weak = rcli::GenPassOpts {
        length: 0,
        no_uppercase: true,
        no_lowercase: true,
        no_number: true,
        no_symbol: true,
    };
    assert_eq!(weak.generate(), Ok((String::new(), None)));
}
