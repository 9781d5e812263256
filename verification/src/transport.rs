//! The wire side of delivery: one HTTP exchange with the provider API, or
//! one SMTP submission to a relay.
//!
//! Each function here performs exactly one transport interaction through an
//! outside crate and reports it as a plain outcome value; what an outcome
//! means for the caller is decided by the verified classification functions
//! of the client module.

use vstd::prelude::*;

use lettre::Transport;

verus! {

/// How one HTTP exchange with the provider ended.
pub enum HttpOutcome {
    /// A response arrived, with its status code and body text.
    Completed { status: u16, body: String },
    /// The configured timeout elapsed first.
    TimedOut,
    /// The exchange broke down before a response (connection refused,
    /// malformed URL, broken transfer), with the diagnostic text.
    Failed { detail: String },
}

/// How one SMTP submission to the relay ended.
pub enum SmtpOutcome {
    /// The relay accepted the message.
    Sent,
    /// The configured timeout elapsed first.
    TimedOut,
    /// The relay, the connection or the authentication failed, with the
    /// diagnostic text.
    Rejected { detail: String },
}

#[verifier::external_type_specification]
#[verifier::external_body]
pub struct ExHttpClient(reqwest::blocking::Client);

#[verifier::external_type_specification]
#[verifier::external_body]
pub struct ExMimeMessage(lettre::Message);

/// Relies on reqwest::blocking::ClientBuilder: `timeout` bounds every
/// request made through the client end-to-end, and `build` yields the
/// configured client or a diagnostic. Must not be called from inside an
/// async runtime, where reqwest's blocking client refuses to start.
#[verifier::external_body]
pub(crate) fn build_http_client(timeout_ms: u64) -> Result<reqwest::blocking::Client, String> {
    reqwest::blocking::Client::builder()
        .timeout(std::time::Duration::from_millis(timeout_ms))
        .build()
        .map_err(|e| e.to_string())
}

/// Relies on reqwest::blocking: `post` + `send` perform one POST of `body`
/// to `url` with the token header and a JSON content type, and
/// `Error::is_timeout` tells an elapsed timeout apart from other failures.
#[verifier::external_body]
pub(crate) fn http_post_email(
    client: &reqwest::blocking::Client,
    url: &str,
    token: &str,
    body: String,
) -> HttpOutcome {
    let sent = client.post(url).header("X-Postmark-Server-Token", token).header(
        "Content-Type",
        "application/json",
    ).body(body).send();
    match sent {
        Ok(r) => HttpOutcome::Completed {
            status: r.status().as_u16(),
            body: r.text().unwrap_or_default(),
        },
        Err(e) if e.is_timeout() => HttpOutcome::TimedOut,
        Err(e) => HttpOutcome::Failed { detail: e.to_string() },
    }
}

/// Whether lettre's address grammar (its `Address` parsing) accepts a
/// string; the answer depends on the characters alone.
pub uninterp spec fn lettre_address_ok(s: Seq<char>) -> bool;

/// Whether lettre's mailbox grammar (its `Mailbox` parsing, a bare address
/// or `Name <address>`) accepts a string; the answer depends on the
/// characters alone.
pub uninterp spec fn lettre_mailbox_ok(s: Seq<char>) -> bool;

/// Relies on lettre's message builder: both addresses are parsed into
/// mailboxes (the sender decorated with the display name), and the message
/// carries the subject with plain-text and HTML alternative parts. With a
/// sender and a recipient both set, the builder itself has nothing left to
/// refuse, so building succeeds exactly when the two parses do; a failed
/// parse comes back as its diagnostic.
#[verifier::external_body]
pub(crate) fn build_smtp_message(
    name: &Option<String>,
    from: &str,
    to: &str,
    subject: &str,
    html: &str,
    text: &str,
) -> (r: Result<lettre::Message, String>)
    ensures
        r is Ok <==> (lettre_address_ok(from@) && lettre_mailbox_ok(to@)),
{
    let fe = |e: lettre::address::AddressError| e.to_string();
    let from_mailbox = lettre::message::Mailbox::new(name.clone(), from.parse().map_err(fe)?);
    let to_mailbox: lettre::message::Mailbox = to.parse().map_err(fe)?;
    lettre::Message::builder().from(from_mailbox).to(to_mailbox).subject(subject).multipart(
        lettre::message::MultiPart::alternative_plain_html(
            String::from(text),
            String::from(html),
        ),
    ).map_err(|e| e.to_string())
}

/// Relies on lettre's SmtpTransport: `relay` prepares a TLS connection to
/// the host, `credentials` sets the login, `timeout` bounds the relay
/// operations, `send` performs one submission, and `Error::is_timeout`
/// tells an elapsed timeout apart from a refusal.
#[verifier::external_body]
pub(crate) fn smtp_send(
    server: &str,
    username: String,
    password: String,
    timeout_ms: u64,
    message: &lettre::Message,
) -> SmtpOutcome {
    let creds = lettre::transport::smtp::authentication::Credentials::new(username, password);
    let mailer = match lettre::SmtpTransport::relay(server) {
        Ok(b) => b.credentials(creds).timeout(
            Some(std::time::Duration::from_millis(timeout_ms)),
        ).build(),
        Err(e) => return SmtpOutcome::Rejected { detail: e.to_string() },
    };
    match mailer.send(message) {
        Ok(_) => SmtpOutcome::Sent,
        Err(e) if e.is_timeout() => SmtpOutcome::TimedOut,
        Err(e) => SmtpOutcome::Rejected { detail: e.to_string() },
    }
}

} // verus!
