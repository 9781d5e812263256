use zero2prod::domain::SubscriberEmail;

#[test]
fn parse_accepts_plain_addresses() {
    for raw in ["ursula_le_guin@gmail.com", "user@domain.tld", "a@b.c", "first.last@sub.example.org"] {
        let parsed = SubscriberEmail::parse(String::from(raw));
        assert!(parsed.is_ok(), "{raw} should be accepted");
    }
}

#[test]
fn parse_round_trips_to_the_same_string() {
    let raw = String::from("user@domain.tld");
    let parsed = SubscriberEmail::parse(raw.clone()).unwrap();
    assert_eq!(parsed.as_ref(), raw.as_str());
}

#[test]
fn parse_rejects_missing_at() {
    for raw in ["", "ursulagmail.com", "plain-text", "domain.tld"] {
        assert!(SubscriberEmail::parse(String::from(raw)).is_err(), "{raw} should be rejected");
    }
}

#[test]
fn parse_rejects_empty_local_part() {
    assert!(SubscriberEmail::parse(String::from("@domain.tld")).is_err());
}

#[test]
fn parse_rejects_empty_domain_part() {
    assert!(SubscriberEmail::parse(String::from("user@")).is_err());
}

#[test]
fn parse_rejects_domain_without_dot() {
    assert!(SubscriberEmail::parse(String::from("user@localhost")).is_err());
}

#[test]
fn parse_rejects_ill_placed_dots() {
    for raw in ["user@.domain.tld", "user@domain.tld.", "user@doma..in.tld"] {
        assert!(SubscriberEmail::parse(String::from(raw)).is_err(), "{raw} should be rejected");
    }
}

#[test]
fn parse_rejects_a_second_at() {
    assert!(SubscriberEmail::parse(String::from("a@b@c.tld")).is_err());
}

#[test]
fn validation_error_carries_the_rejected_input() {
    let err = SubscriberEmail::parse(String::from("definitely-not-an-email")).unwrap_err();
    assert_eq!(err.rejected, "definitely-not-an-email");
}
