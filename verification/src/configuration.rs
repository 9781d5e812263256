//! The configuration surface: plain settings values, and the step from
//! settings to a constructed notification client.
//!
//! Loading settings from files or the process environment is a caller's
//! concern; this module only holds the validated step from loaded values
//! to a client.

use vstd::prelude::*;

use crate::domain::is_valid_email;
use crate::domain::SubscriberEmail;
use crate::domain::ValidationError;
use crate::email_client::EmailClient;
use crate::email_client::EmailClientView;
use crate::email_client::ProviderView;
use crate::email_client::SmtpProviderView;
use crate::email_client::UrlProviderView;
use crate::email_client::opt_str_view;
use crate::secret::Secret;
use vstd::pervasive::unreached;
use vstd::string::StrSliceExecFns;

verus! {

/// Everything the application reads at startup.
pub struct Settings {
    pub database: DatabaseSettings,
    pub application: ApplicationSettings,
    pub email_client: EmailClientSettings,
}

/// Where the application itself listens.
pub struct ApplicationSettings {
    pub port: u16,
    pub host: String,
    pub base_url: String,
}

/// How to reach the database.
pub struct DatabaseSettings {
    pub username: String,
    pub password: Secret,
    pub port: u16,
    pub host: String,
    pub database_name: String,
    pub require_ssl: bool,
}

/// The delivery settings: sender, per-call timeout in milliseconds, and
/// exactly one transport variant.
pub struct EmailClientSettings {
    pub sender_email: String,
    pub timeout_milliseconds: u64,
    pub kind: KindEmailProviderSettings,
}

/// The transport choice as configured.
pub enum KindEmailProviderSettings {
    URL(EmailProviderURLSettings),
    SMTP(EmailProviderSMTPSettings),
}

/// Settings of the HTTP-API transport.
pub struct EmailProviderURLSettings {
    pub base_url: String,
    pub authorization_token: Secret,
}

/// Settings of the SMTP transport.
pub struct EmailProviderSMTPSettings {
    pub name: Option<String>,
    pub username: Option<String>,
    pub password: Secret,
    pub smtp_server: String,
}

impl View for KindEmailProviderSettings {
    type V = ProviderView;

    open spec fn view(&self) -> ProviderView {
        match self {
            KindEmailProviderSettings::URL(u) => ProviderView::Url(
                UrlProviderView { base_url: u.base_url@, token: u.authorization_token@ },
            ),
            KindEmailProviderSettings::SMTP(s) => ProviderView::Smtp(
                SmtpProviderView {
                    name: opt_str_view(s.name),
                    username: opt_str_view(s.username),
                    password: s.password@,
                    server: s.smtp_server@,
                },
            ),
        }
    }
}

impl EmailClientSettings {
    /// The client these settings describe: the sender string validated
    /// into an address, the timeout bound to the transport, and the
    /// configured variant constructed. With the SMTP variant construction
    /// always succeeds; with the HTTP-API variant the connection pool may
    /// fail to set up, and its diagnostic is returned then.
    pub fn client(self) -> (r: Result<EmailClient, String>)
        requires
            is_valid_email(self.sender_email@),
        ensures
            self.kind is SMTP ==> r is Ok,
            r matches Ok(c) ==> c@ == (EmailClientView {
                sender: self.sender_email@,
                timeout_ms: self.timeout_milliseconds,
                kind: self.kind@,
            }),
    {
        let timeout = self.timeout();
        let sender_email = match self.sender() {
            Ok(s) => s,
            Err(_) => unreached(),
        };
        match self.kind {
            KindEmailProviderSettings::URL(kind) => EmailClient::new_url(
                kind.base_url,
                sender_email,
                kind.authorization_token,
                timeout,
            ),
            KindEmailProviderSettings::SMTP(kind) => Ok(
                EmailClient::new_smtp(
                    sender_email,
                    timeout,
                    kind.name,
                    kind.username,
                    kind.password,
                    kind.smtp_server,
                ),
            ),
        }
    }

    /// The configured sender string, validated into an address.
    pub fn sender(&self) -> (r: Result<SubscriberEmail, ValidationError>)
        ensures
            r is Ok <==> is_valid_email(self.sender_email@),
            r matches Ok(e) ==> e@ == self.sender_email@,
            r matches Err(v) ==> v.rejected@ == self.sender_email@,
    {
        SubscriberEmail::parse(self.sender_email.clone())
    }

    /// The configured per-call timeout, in milliseconds.
    pub fn timeout(&self) -> (r: u64)
        ensures
            r == self.timeout_milliseconds,
    {
        self.timeout_milliseconds
    }
}

/// Two characters are equal up to ASCII case.
pub open spec fn chars_eq_ci(a: char, b: char) -> bool {
    fold_upper(a as u32) == fold_upper(b as u32)
}

/// An ASCII upper-case code point folded to its lower-case one.
pub open spec fn fold_upper(x: u32) -> int {
    if 65 <= x <= 90 {
        x + 32
    } else {
        x as int
    }
}

/// Two strings are equal up to ASCII case.
pub open spec fn str_eq_ci(a: Seq<char>, b: Seq<char>) -> bool {
    a.len() == b.len() && forall|i: int| 0 <= i < a.len() ==> chars_eq_ci(a[i], b[i])
}

/// Compare two strings for equality up to ASCII case.
fn eq_ignore_case(a: &str, b: &str) -> (r: bool)
    ensures
        r == str_eq_ci(a@, b@),
{
    let a_len = a.unicode_len();
    let b_len = b.unicode_len();
    if a_len != b_len {
        return false;
    }
    let mut i: usize = 0;
    while i < a_len
        invariant
            a_len == a@.len(),
            b_len == b@.len(),
            a_len == b_len,
            i <= a_len,
            forall|j: int| 0 <= j < i ==> chars_eq_ci(a@[j], b@[j]),
        decreases a_len - i,
    {
        let ca = a.get_char(i) as u32;
        let cb = b.get_char(i) as u32;
        let fa = if 65 <= ca && ca <= 90 {
            ca + 32
        } else {
            ca
        };
        let fb = if 65 <= cb && cb <= 90 {
            cb + 32
        } else {
            cb
        };
        if fa != fb {
            return false;
        }
        i += 1;
    }
    true
}

/// The possible runtime environments for the application.
#[derive(Debug)]
pub enum Environment {
    Local,
    Production,
}

impl Environment {
    /// The canonical name of the environment.
    pub fn as_str(&self) -> (r: &'static str)
        ensures
            self is Local ==> r@ == "local"@,
            self is Production ==> r@ == "production"@,
    {
        match self {
            Environment::Local => "local",
            Environment::Production => "production",
        }
    }

    /// Read an environment from its name, ASCII-case-insensitively; an
    /// unsupported name comes back as the error.
    pub fn parse(s: &str) -> (r: Result<Environment, String>)
        ensures
            r matches Ok(e) ==> (e is Local <==> str_eq_ci(s@, "local"@)),
            r matches Ok(e) ==> (e is Production <==> str_eq_ci(s@, "production"@)),
            r is Ok <==> (str_eq_ci(s@, "local"@) || str_eq_ci(s@, "production"@)),
            r matches Err(v) ==> v@ == s@,
    {
        if eq_ignore_case(s, "local") {
            proof {
                // The two names differ in length, so no string matches both.
                reveal_strlit("local");
                reveal_strlit("production");
            }
            Ok(Environment::Local)
        } else if eq_ignore_case(s, "production") {
            Ok(Environment::Production)
        } else {
            Err(s.to_owned())
        }
    }
}

} // verus!
