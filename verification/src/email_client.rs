//! The notification client: one `send_email` operation over one of two
//! transports, fixed at construction.
//!
//! The variant is a closed, two-case choice: a JSON-over-HTTPS provider
//! API, or a direct SMTP relay. Both share the sender address and the
//! per-call timeout, given in milliseconds. The client holds no mutable
//! state: `send_email` takes it by shared reference, so concurrent calls
//! share nothing but the immutable configuration.

use vstd::prelude::*;

use crate::domain::SubscriberEmail;
use crate::json::build_email_request_body;
use crate::secret::Secret;
use crate::transport::build_http_client;
use crate::transport::build_smtp_message;
use crate::transport::http_post_email;
use crate::transport::smtp_send;
use crate::transport::HttpOutcome;
use crate::transport::SmtpOutcome;
use vstd::string::StringExecFns;

verus! {

/// Why one `send_email` call failed.
#[derive(Debug)]
pub enum DeliveryError {
    /// The outgoing message could not be encoded for the wire.
    MessageBuild { detail: String },
    /// The remote side refused the message: a non-success HTTP status
    /// (carried in `status`), or a relay, connection or authentication
    /// failure.
    TransportRejected { status: Option<u16>, detail: String },
    /// The configured duration elapsed before the transport finished.
    TimedOut,
}

/// The model of the HTTP-API transport: base URL and authorization token.
pub struct UrlProviderView {
    pub base_url: Seq<char>,
    pub token: Seq<char>,
}

/// The model of the SMTP transport: relay host, optional display name,
/// optional login username, password.
pub struct SmtpProviderView {
    pub name: Option<Seq<char>>,
    pub username: Option<Seq<char>>,
    pub password: Seq<char>,
    pub server: Seq<char>,
}

/// The model of the transport choice.
pub enum ProviderView {
    Url(UrlProviderView),
    Smtp(SmtpProviderView),
}

/// The model of a whole client: sender, timeout, and the chosen transport.
pub struct EmailClientView {
    pub sender: Seq<char>,
    pub timeout_ms: u64,
    pub kind: ProviderView,
}

/// An option of a string, seen as an option of its characters.
pub open spec fn opt_str_view(o: Option<String>) -> Option<Seq<char>> {
    match o {
        Some(s) => Some(s@),
        None => None,
    }
}

/// The HTTP-API transport: provider URL, token, and a pooled connection
/// handle configured with the client's timeout.
pub struct EmailProviderURL {
    http_client: reqwest::blocking::Client,
    base_url: String,
    authorization_token: Secret,
}

impl View for EmailProviderURL {
    type V = UrlProviderView;

    closed spec fn view(&self) -> UrlProviderView {
        UrlProviderView { base_url: self.base_url@, token: self.authorization_token@ }
    }
}

/// The SMTP transport: relay parameters and credentials.
pub struct EmailProviderSMTP {
    /// The display name to put on outgoing emails.
    name: Option<String>,
    /// The username to log into the relay with; when absent, the sender
    /// address itself is the login identity.
    username: Option<String>,
    password: Secret,
    smtp_server: String,
}

impl View for EmailProviderSMTP {
    type V = SmtpProviderView;

    closed spec fn view(&self) -> SmtpProviderView {
        SmtpProviderView {
            name: opt_str_view(self.name),
            username: opt_str_view(self.username),
            password: self.password@,
            server: self.smtp_server@,
        }
    }
}

/// Exactly one transport is active for a client.
pub enum KindEmailProvider {
    URL(EmailProviderURL),
    SMTP(EmailProviderSMTP),
}

impl View for KindEmailProvider {
    type V = ProviderView;

    closed spec fn view(&self) -> ProviderView {
        match self {
            KindEmailProvider::URL(u) => ProviderView::Url(u@),
            KindEmailProvider::SMTP(s) => ProviderView::Smtp(s@),
        }
    }
}

/// The notification client, immutable once constructed.
pub struct EmailClient {
    sender: SubscriberEmail,
    timeout_ms: u64,
    kind_email_provider: KindEmailProvider,
}

impl View for EmailClient {
    type V = EmailClientView;

    closed spec fn view(&self) -> EmailClientView {
        EmailClientView {
            sender: self.sender@,
            timeout_ms: self.timeout_ms,
            kind: self.kind_email_provider@,
        }
    }
}

/// Turn a completed, timed-out or broken HTTP exchange into the caller's
/// result: success exactly on a 2xx status, a timeout kept distinct, and
/// everything else a transport rejection carrying the diagnostic.
pub fn classify_http_outcome(outcome: HttpOutcome) -> (r: Result<(), DeliveryError>)
    ensures
        r is Ok <==> (outcome matches HttpOutcome::Completed { status, .. } && 200 <= status
            < 300),
        outcome matches HttpOutcome::Completed { status, body } ==> (!(200 <= status < 300)
            ==> r == Err::<(), DeliveryError>(
            DeliveryError::TransportRejected { status: Some(status), detail: body },
        )),
        outcome is TimedOut ==> r == Err::<(), DeliveryError>(DeliveryError::TimedOut),
        outcome matches HttpOutcome::Failed { detail } ==> r == Err::<(), DeliveryError>(
            DeliveryError::TransportRejected { status: None, detail },
        ),
{
    match outcome {
        HttpOutcome::Completed { status, body } => {
            if 200 <= status && status < 300 {
                Ok(())
            } else {
                Err(DeliveryError::TransportRejected { status: Some(status), detail: body })
            }
        },
        HttpOutcome::TimedOut => Err(DeliveryError::TimedOut),
        HttpOutcome::Failed { detail } => Err(
            DeliveryError::TransportRejected { status: None, detail },
        ),
    }
}

/// Turn an SMTP submission outcome into the caller's result: success
/// exactly on relay acceptance, a timeout kept distinct, and a refusal a
/// transport rejection carrying the diagnostic.
pub fn classify_smtp_outcome(outcome: SmtpOutcome) -> (r: Result<(), DeliveryError>)
    ensures
        r is Ok <==> outcome is Sent,
        outcome is TimedOut ==> r == Err::<(), DeliveryError>(DeliveryError::TimedOut),
        outcome matches SmtpOutcome::Rejected { detail } ==> r == Err::<(), DeliveryError>(
            DeliveryError::TransportRejected { status: None, detail },
        ),
{
    match outcome {
        SmtpOutcome::Sent => Ok(()),
        SmtpOutcome::TimedOut => Err(DeliveryError::TimedOut),
        SmtpOutcome::Rejected { detail } => Err(
            DeliveryError::TransportRejected { status: None, detail },
        ),
    }
}

/// The provider endpoint one message is posted to: the configured base
/// URL with the fixed `/email` path appended.
pub fn email_endpoint(base_url: &String) -> (r: String)
    ensures
        r@ == base_url@ + "/email"@,
{
    base_url.clone().concat("/email")
}

/// The login identity for the relay: the configured username when present,
/// otherwise the sender address itself.
pub fn resolve_smtp_username(username: &Option<String>, sender: &SubscriberEmail) -> (r: String)
    ensures
        username matches Some(u) ==> r@ == u@,
        username is None ==> r@ == sender@,
{
    match username {
        Some(u) => u.clone(),
        None => String::from_str(sender.as_ref()),
    }
}

impl EmailClient {
    /// A client from an already-built transport choice.
    pub fn new(sender: SubscriberEmail, timeout_ms: u64, kind_email_provider: KindEmailProvider) -> (r:
        Self)
        ensures
            r@ == (EmailClientView {
                sender: sender@,
                timeout_ms: timeout_ms,
                kind: kind_email_provider@,
            }),
    {
        Self { sender, timeout_ms, kind_email_provider }
    }

    /// A client over the HTTP-API transport. The connection pool is built
    /// here, with the timeout bound to it; when the pool cannot be set up,
    /// the diagnostic is returned instead of a client.
    pub fn new_url(
        base_url: String,
        sender: SubscriberEmail,
        authorization_token: Secret,
        timeout_ms: u64,
    ) -> (r: Result<Self, String>)
        ensures
            r matches Ok(c) ==> c@ == (EmailClientView {
                sender: sender@,
                timeout_ms: timeout_ms,
                kind: ProviderView::Url(
                    UrlProviderView { base_url: base_url@, token: authorization_token@ },
                ),
            }),
    {
        let http_client = match build_http_client(timeout_ms) {
            Ok(c) => c,
            Err(detail) => {
                return Err(detail);
            },
        };
        let kind_email_provider = EmailProviderURL { http_client, base_url, authorization_token };
        Ok(
            Self {
                sender,
                timeout_ms,
                kind_email_provider: KindEmailProvider::URL(kind_email_provider),
            },
        )
    }

    /// A client over the SMTP transport.
    pub fn new_smtp(
        sender: SubscriberEmail,
        timeout_ms: u64,
        name: Option<String>,
        username: Option<String>,
        password: Secret,
        smtp_server: String,
    ) -> (r: Self)
        ensures
            r@ == (EmailClientView {
                sender: sender@,
                timeout_ms: timeout_ms,
                kind: ProviderView::Smtp(
                    SmtpProviderView {
                        name: opt_str_view(name),
                        username: opt_str_view(username),
                        password: password@,
                        server: smtp_server@,
                    },
                ),
            }),
    {
        let kind_email_provider = EmailProviderSMTP { name, username, password, smtp_server };
        Self {
            sender,
            timeout_ms,
            kind_email_provider: KindEmailProvider::SMTP(kind_email_provider),
        }
    }

    /// Send one message to `recipient`: exactly one transport attempt over
    /// the variant fixed at construction, with no retry. Success means the
    /// transport accepted the message, not final delivery. On the HTTP-API
    /// transport the request body is exactly the five-field provider
    /// object, and every failure is a rejection or a timeout; on SMTP a
    /// message build failure is reported, before any transport work,
    /// exactly when one of the two addresses falls outside the relay
    /// library's grammar.
    pub fn send_email(
        &self,
        recipient: &SubscriberEmail,
        subject: &str,
        html_content: &str,
        text_content: &str,
    ) -> (r: Result<(), DeliveryError>)
        ensures
            self@.kind is Url ==> (r matches Err(e) ==> (e matches
                DeliveryError::TransportRejected { .. } || e is TimedOut)),
            self@.kind is Smtp ==> ((r matches Err(e) && e is MessageBuild) <==> !(
            crate::transport::lettre_address_ok(self@.sender)
                && crate::transport::lettre_mailbox_ok(recipient@))),
    {
        match &self.kind_email_provider {
            KindEmailProvider::URL(kind_url) => {
                let url = email_endpoint(&kind_url.base_url);
                let request_body = build_email_request_body(
                    self.sender.as_ref(),
                    recipient.as_ref(),
                    subject,
                    html_content,
                    text_content,
                );
                let outcome = http_post_email(
                    &kind_url.http_client,
                    url.as_str(),
                    kind_url.authorization_token.expose_secret(),
                    request_body,
                );
                classify_http_outcome(outcome)
            },
            KindEmailProvider::SMTP(kind_smtp) => {
                let message = match build_smtp_message(
                    &kind_smtp.name,
                    self.sender.as_ref(),
                    recipient.as_ref(),
                    subject,
                    html_content,
                    text_content,
                ) {
                    Ok(m) => m,
                    Err(detail) => {
                        return Err(DeliveryError::MessageBuild { detail });
                    },
                };
                let username = resolve_smtp_username(&kind_smtp.username, &self.sender);
                let password = String::from_str(kind_smtp.password.expose_secret());
                let outcome = smtp_send(
                    kind_smtp.smtp_server.as_str(),
                    username,
                    password,
                    self.timeout_ms,
                    &message,
                );
                classify_smtp_outcome(outcome)
            },
        }
    }
}

} // verus!
