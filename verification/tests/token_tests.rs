use me_tube::token::{secure_rnd_string, ExpiringToken};

#[test]
fn issued_token_valid_until_expiry() {
    let t = ExpiringToken::issue_at(1_000, 5_000);
    assert_eq!(t.expires, 6_000);
    let secret = t.token.clone();
    assert!(t.valid_at(&secret, 1_000));
    assert!(t.valid_at(&secret, 5_999));
    assert!(!t.valid_at(&secret, 6_000));
    assert!(!t.valid_at(&secret, 7_000));
}

#[test]
fn issued_token_rejects_other_strings() {
    let t = ExpiringToken::issue_at(0, 1_000);
    assert!(!t.valid_at("not-the-token", 500));
    assert!(!t.valid_at("", 500));
}

#[test]
fn zero_duration_token_is_never_valid() {
    let t = ExpiringToken::issue_at(1_000, 0);
    let secret = t.token.clone();
    assert!(!t.valid_at(&secret, 1_000));
}

#[test]
fn secure_strings_are_long_and_distinct() {
    let a = secure_rnd_string();
    let b = secure_rnd_string();
    assert_eq!(a.chars().count(), 44);
    assert_eq!(b.chars().count(), 44);
    assert_ne!(a, b);
    assert!(a.chars().all(|c| c.is_ascii_alphanumeric() || c == '-' || c == '_' || c == '='));
}

#[test]
fn clock_based_token_works_now() {
    let t = ExpiringToken::new(60_000);
    let secret = t.token.clone();
    assert!(t.valid(&secret));
    assert!(!t.valid("something-else"));
}
