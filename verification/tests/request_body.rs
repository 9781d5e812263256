use zero2prod::json::build_email_request_body;

#[test]
fn body_holds_the_five_fields_in_order() {
    let body = build_email_request_body(
        "sender@example.com",
        "rcpt@example.com",
        "Hello",
        "<b>Hi</b>",
        "Hi",
    );
    assert_eq!(
        body,
        "{\"From\":\"sender@example.com\",\"To\":\"rcpt@example.com\",\
         \"Subject\":\"Hello\",\"HtmlBody\":\"<b>Hi</b>\",\"TextBody\":\"Hi\"}"
    );
}

#[test]
fn body_escapes_quotes_and_backslashes() {
    let body = build_email_request_body("s@d.tld", "r@d.tld", "a \"quoted\" \\ word", "h", "t");
    assert_eq!(
        body,
        "{\"From\":\"s@d.tld\",\"To\":\"r@d.tld\",\
         \"Subject\":\"a \\\"quoted\\\" \\\\ word\",\"HtmlBody\":\"h\",\"TextBody\":\"t\"}"
    );
}

#[test]
fn body_escapes_control_characters() {
    let body = build_email_request_body("s@d.tld", "r@d.tld", "line\nbreak\ttab\r", "\u{1}", "\u{1f}");
    assert_eq!(
        body,
        "{\"From\":\"s@d.tld\",\"To\":\"r@d.tld\",\
         \"Subject\":\"line\\nbreak\\ttab\\r\",\"HtmlBody\":\"\\u0001\",\"TextBody\":\"\\u001f\"}"
    );
}

#[test]
fn body_passes_unicode_through() {
    let body = build_email_request_body("s@d.tld", "r@d.tld", "grüße", "h", "t");
    assert_eq!(
        body,
        "{\"From\":\"s@d.tld\",\"To\":\"r@d.tld\",\
         \"Subject\":\"grüße\",\"HtmlBody\":\"h\",\"TextBody\":\"t\"}"
    );
}

#[test]
fn body_with_empty_fields_keeps_the_shape() {
    let body = build_email_request_body("s@d.tld", "r@d.tld", "", "", "");
    assert_eq!(
        body,
        "{\"From\":\"s@d.tld\",\"To\":\"r@d.tld\",\"Subject\":\"\",\"HtmlBody\":\"\",\"TextBody\":\"\"}"
    );
}

#[test]
fn body_parses_as_json_with_the_given_values() {
    let subject = "a \"tricky\"\nsubject \\ with ü";
    let body = build_email_request_body("s@d.tld", "r@d.tld", subject, "<p>x</p>", "x");
    let parsed: serde_json::Value = serde_json::from_str(&body).unwrap();
    assert_eq!(parsed["From"], "s@d.tld");
    assert_eq!(parsed["To"], "r@d.tld");
    assert_eq!(parsed["Subject"], subject);
    assert_eq!(parsed["HtmlBody"], "<p>x</p>");
    assert_eq!(parsed["TextBody"], "x");
}
