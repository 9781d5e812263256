use zero2prod::domain::SubscriberEmail;
use zero2prod::email_client::classify_http_outcome;
use zero2prod::email_client::classify_smtp_outcome;
use zero2prod::email_client::resolve_smtp_username;
use zero2prod::email_client::DeliveryError;
use zero2prod::email_client::EmailClient;
use zero2prod::secret::Secret;
use zero2prod::transport::HttpOutcome;
use zero2prod::transport::SmtpOutcome;

fn email(raw: &str) -> SubscriberEmail {
    SubscriberEmail::parse(String::from(raw)).unwrap()
}

// No network interface is available where these tests run, so every wire
// exchange ends in a transport error; the tests pin down how the client
// reports those, and the classification tests below pin down — on plain
// outcome values — what the client returns for each way an exchange can
// end.

fn unreachable_url_client(timeout_ms: u64) -> EmailClient {
    EmailClient::new_url(
        String::from("http://127.0.0.1:9"),
        email("sender@example.com"),
        Secret::new(String::from("token-value")),
        timeout_ms,
    )
    .unwrap()
}

#[test]
fn send_email_reports_an_unreachable_provider_as_rejected() {
    let client = unreachable_url_client(2000);
    let outcome = client.send_email(&email("rcpt@example.com"), "s", "<p>h</p>", "t");
    assert!(matches!(
        outcome,
        Err(DeliveryError::TransportRejected { .. }) | Err(DeliveryError::TimedOut)
    ));
}

#[test]
fn a_failed_send_does_not_poison_the_client() {
    let client = unreachable_url_client(2000);
    let first = client.send_email(&email("rcpt@example.com"), "s1", "<p>h1</p>", "t1");
    assert!(first.is_err());
    let second = client.send_email(&email("other@example.com"), "s2", "<p>h2</p>", "t2");
    assert!(second.is_err());
}

#[test]
fn concurrent_sends_share_one_client() {
    let client = unreachable_url_client(2000);
    let (a, b) = rayon::join(
        || client.send_email(&email("first@example.com"), "s1", "<p>h1</p>", "t1"),
        || client.send_email(&email("second@example.com"), "s2", "<p>h2</p>", "t2"),
    );
    // Each call completes with its own classified result; no call panics
    // or corrupts the shared client, which still answers afterwards.
    assert!(matches!(a, Err(DeliveryError::TransportRejected { .. }) | Err(DeliveryError::TimedOut)));
    assert!(matches!(b, Err(DeliveryError::TransportRejected { .. }) | Err(DeliveryError::TimedOut)));
    let after = client.send_email(&email("third@example.com"), "s3", "<p>h3</p>", "t3");
    assert!(after.is_err());
}

#[test]
fn http_outcomes_classify_by_status() {
    assert!(classify_http_outcome(HttpOutcome::Completed {
        status: 200,
        body: String::new()
    })
    .is_ok());
    assert!(classify_http_outcome(HttpOutcome::Completed {
        status: 204,
        body: String::new()
    })
    .is_ok());
    assert!(classify_http_outcome(HttpOutcome::Completed {
        status: 299,
        body: String::new()
    })
    .is_ok());
    for status in [199u16, 300, 301, 404, 500] {
        let classified = classify_http_outcome(HttpOutcome::Completed {
            status,
            body: String::from("diagnostic"),
        });
        match classified {
            Err(DeliveryError::TransportRejected { status: got, detail }) => {
                assert_eq!(got, Some(status));
                assert_eq!(detail, "diagnostic");
            },
            other => panic!("status {status} classified as {other:?} instead of a rejection"),
        }
    }
}

#[test]
fn http_timeout_is_kept_distinct_from_rejection() {
    assert!(matches!(
        classify_http_outcome(HttpOutcome::TimedOut),
        Err(DeliveryError::TimedOut)
    ));
    assert!(matches!(
        classify_http_outcome(HttpOutcome::Failed { detail: String::from("refused") }),
        Err(DeliveryError::TransportRejected { status: None, .. })
    ));
}

#[test]
fn smtp_outcomes_classify_by_kind() {
    assert!(classify_smtp_outcome(SmtpOutcome::Sent).is_ok());
    assert!(matches!(
        classify_smtp_outcome(SmtpOutcome::TimedOut),
        Err(DeliveryError::TimedOut)
    ));
    assert!(matches!(
        classify_smtp_outcome(SmtpOutcome::Rejected { detail: String::from("bad auth") }),
        Err(DeliveryError::TransportRejected { status: None, .. })
    ));
}

#[test]
fn smtp_login_defaults_to_the_sender_address() {
    let sender = email("sender@example.com");
    let resolved = resolve_smtp_username(&None, &sender);
    assert_eq!(resolved, "sender@example.com");
}

#[test]
fn smtp_login_prefers_the_configured_username() {
    let sender = email("sender@example.com");
    let resolved = resolve_smtp_username(&Some(String::from("relay-login")), &sender);
    assert_eq!(resolved, "relay-login");
}

#[test]
fn smtp_send_to_an_unreachable_relay_is_reported_not_swallowed() {
    let client = EmailClient::new_smtp(
        email("sender@example.com"),
        2000,
        Some(String::from("Sender Name")),
        None,
        Secret::new(String::from("relay password")),
        String::from("127.0.0.1"),
    );
    let outcome = client.send_email(&email("rcpt@example.com"), "s", "<p>h</p>", "t");
    assert!(matches!(
        outcome,
        Err(DeliveryError::TransportRejected { .. }) | Err(DeliveryError::TimedOut)
    ));
}

#[test]
fn the_endpoint_appends_the_email_path() {
    let url = zero2prod::email_client::email_endpoint(&String::from("https://api.example.com"));
    assert_eq!(url, "https://api.example.com/email");
}

#[test]
fn an_address_outside_the_relay_grammar_is_a_build_failure() {
    // The crate's own grammar tolerates an inner space; the relay
    // library's mailbox grammar does not, so the message cannot be
    // encoded and no transport work happens.
    let client = EmailClient::new_smtp(
        email("sender@example.com"),
        2000,
        None,
        None,
        Secret::new(String::from("relay password")),
        String::from("127.0.0.1"),
    );
    let recipient = email("us er@domain.tld");
    let outcome = client.send_email(&recipient, "s", "<p>h</p>", "t");
    assert!(matches!(outcome, Err(DeliveryError::MessageBuild { .. })));
}

#[test]
fn a_malformed_base_url_is_a_rejection_not_a_panic() {
    let client = EmailClient::new_url(
        String::from("not a url"),
        email("sender@example.com"),
        Secret::new(String::from("token-value")),
        1000,
    )
    .unwrap();
    let outcome = client.send_email(&email("rcpt@example.com"), "s", "<p>h</p>", "t");
    assert!(matches!(
        outcome,
        Err(DeliveryError::TransportRejected { .. }) | Err(DeliveryError::TimedOut)
    ));
}
