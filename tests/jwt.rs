use rcli::jwt::{split_audience, Claims};
use rcli::{ExpObj, TimeUnit};

#[test]
fn audience_fields_are_split_and_trimmed() {
    assert_eq!(split_audience("device1"), vec!["device1".to_string()]);
    assert_eq!(
        split_audience("a, b ,c"),
        vec!["a".to_string(), "b".to_string(), "c".to_string()]
    );
    assert_eq!(split_audience(""), vec![String::new()]);
    assert_eq!(split_audience("x,"), vec!["x".to_string(), String::new()]);
    assert_eq!(
        split_audience(",,"),
        vec![String::new(), String::new(), String::new()]
    );
}

#[test]
fn claims_keep_their_fields() {
    let c = Claims::new(
        "acme".to_string(),
        "aud1, aud2".to_string(),
        "payload".to_string(),
        1_700_000_000,
        1_701_209_600,
    );
    assert_eq!(c.sub, "acme");
    assert_eq!(c.aud, vec!["aud1".to_string(), "aud2".to_string()]);
    assert_eq!(c.input, "payload");
    assert_eq!(c.iat, 1_700_000_000);
    assert_eq!(c.exp, 1_701_209_600);
}

#[test]
fn expiry_from_issue_time() {
    let exp = ExpObj::new(14, TimeUnit::Day);
    assert_eq!(exp.expires_at(1_700_000_000), Some(1_701_209_600));
    assert_eq!(ExpObj::new(1, TimeUnit::Minute).expires_at(i64::MAX), None);
    assert_eq!(ExpObj::new(-1, TimeUnit::Month).expires_at(0), Some(-2_592_000));
}
