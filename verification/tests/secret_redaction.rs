use zero2prod::secret::Secret;

#[test]
fn redaction_is_the_fixed_mark() {
    let secret = Secret::new(String::from("a raw token value"));
    assert_eq!(secret.redacted(), "[REDACTED]");
}

#[test]
fn redaction_is_independent_of_the_payload() {
    let a = Secret::new(String::from("first payload"));
    let b = Secret::new(String::from("an entirely different payload"));
    assert_eq!(a.redacted(), b.redacted());
}

#[test]
fn redaction_never_contains_the_payload() {
    for payload in ["p", "token-123", "hunter2"] {
        let secret = Secret::new(String::from(payload));
        assert!(!secret.redacted().contains(payload));
    }
}

#[test]
fn expose_secret_yields_the_payload() {
    let secret = Secret::new(String::from("deliberate extraction"));
    assert_eq!(secret.expose_secret(), "deliberate extraction");
}
