//! The email provider interface, its error taxonomy and an in-memory test double.
use crate::domain::Email;
use vstd::prelude::*;
use vstd::string::*;

verus! {

/// Why a provider could not deliver an email.
#[derive(Debug, Clone)]
pub enum EmailError {
    /// The provider could not be reached.
    ConnectionError(String),
    /// The provider refused the credentials.
    AuthenticationError(String),
    /// The provider rejected the payload.
    InvalidRequest(String),
    /// The provider is throttling.
    RateLimited,
    /// The provider rejected the recipient.
    InvalidRecipient(String),
    /// Any other provider-side failure, unreadable replies included.
    ProviderError(String),
}

/// The human-readable message of an error.
pub open spec fn error_message(e: EmailError) -> Seq<char> {
    match e {
        EmailError::ConnectionError(d) => "Erreur de connexion au service email: "@ + d@,
        EmailError::AuthenticationError(d) => "Erreur d'authentification: "@ + d@,
        EmailError::InvalidRequest(d) => "Requête invalide: "@ + d@,
        EmailError::RateLimited => "Limite de taux dépassée"@,
        EmailError::InvalidRecipient(d) => "Destinataire invalide: "@ + d@,
        EmailError::ProviderError(d) => "Erreur interne du service: "@ + d@,
    }
}

/// The HTTP status under which an error is reported to the caller: the
/// caller's own faults are 4xx, throttling is 503, the rest 500.
pub open spec fn error_status(e: EmailError) -> u16 {
    match e {
        EmailError::InvalidRequest(_) => 400,
        EmailError::InvalidRecipient(_) => 400,
        EmailError::RateLimited => 503,
        _ => 500,
    }
}

impl EmailError {
    /// The human-readable message of the error.
    pub fn message(&self) -> (r: String)
        ensures
            r@ == error_message(*self),
    {
        match self {
            EmailError::ConnectionError(d) => {
                let mut m = String::from_str("Erreur de connexion au service email: ");
                m.append(d.as_str());
                m
            },
            EmailError::AuthenticationError(d) => {
                let mut m = String::from_str("Erreur d'authentification: ");
                m.append(d.as_str());
                m
            },
            EmailError::InvalidRequest(d) => {
                let mut m = String::from_str("Requête invalide: ");
                m.append(d.as_str());
                m
            },
            EmailError::RateLimited => String::from_str("Limite de taux dépassée"),
            EmailError::InvalidRecipient(d) => {
                let mut m = String::from_str("Destinataire invalide: ");
                m.append(d.as_str());
                m
            },
            EmailError::ProviderError(d) => {
                let mut m = String::from_str("Erreur interne du service: ");
                m.append(d.as_str());
                m
            },
        }
    }

    /// The HTTP status under which the error is reported.
    pub fn http_status(&self) -> (r: u16)
        ensures
            r == error_status(*self),
    {
        match self {
            EmailError::InvalidRequest(_) => 400,
            EmailError::InvalidRecipient(_) => 400,
            EmailError::RateLimited => 503,
            _ => 500,
        }
    }

    /// Classifies a provider's non-success HTTP reply: 401 is an
    /// authentication failure, 422 a rejected payload, 429 throttling, and
    /// any other status a provider error that quotes the status and the body.
    pub fn from_http_status(status: u16, status_display: &str, body: String) -> (r: EmailError)
        ensures
            status == 401 ==> (r matches EmailError::AuthenticationError(d) && d@
                == "Clé API invalide"@),
            status == 422 ==> (r matches EmailError::InvalidRequest(d) && d@ == body@),
            status == 429 ==> r matches EmailError::RateLimited,
            status != 401 && status != 422 && status != 429 ==> (r matches EmailError::ProviderError(
                d,
            ) && d@ == "HTTP "@ + status_display@ + ": "@ + body@),
    {
        if status == 401 {
            EmailError::AuthenticationError(String::from_str("Clé API invalide"))
        } else if status == 422 {
            EmailError::InvalidRequest(body)
        } else if status == 429 {
            EmailError::RateLimited
        } else {
            let mut d = String::from_str("HTTP ");
            d.append(status_display);
            d.append(": ");
            d.append(body.as_str());
            EmailError::ProviderError(d)
        }
    }

    /// A success reply whose body could not be read.
    pub fn unreadable_reply(detail: &str) -> (r: EmailError)
        ensures
            r matches EmailError::ProviderError(d) && d@ == "Erreur parsing réponse: "@ + detail@,
    {
        let mut d = String::from_str("Erreur parsing réponse: ");
        d.append(detail);
        EmailError::ProviderError(d)
    }
}

/// The sender as providers expect it: `Name <address>`.
pub fn sender_address(from_name: &str, from_email: &str) -> (r: String)
    ensures
        r@ == from_name@ + " <"@ + from_email@ + ">"@,
{
    let mut s = String::from_str(from_name);
    s.append(" <");
    s.append(from_email);
    s.append(">");
    s
}

/// A service that delivers emails.
pub trait EmailProvider {
    /// Delivers `email`; on success returns the provider's message id.
    fn send(&mut self, email: &Email) -> Result<String, EmailError>;

    /// Whether the service can be reached.
    fn health_check(&self) -> bool;

    /// The provider's name, for logs and health reports.
    fn provider_name(&self) -> &'static str;
}

/// A provider that delivers nothing: it counts its calls and either accepts
/// every email or fails every one with a provider error.
pub struct MockEmailProvider {
    pub should_succeed: bool,
    pub send_count: usize,
}

/// The id that the test double returns for every accepted email.
pub open spec fn mock_id() -> Seq<char> {
    "mock-email-id"@
}

/// The detail of the test double's failure.
pub open spec fn mock_failure() -> Seq<char> {
    "Mock error"@
}

impl MockEmailProvider {
    pub fn new(should_succeed: bool) -> (r: MockEmailProvider)
        ensures
            r.should_succeed == should_succeed,
            r.send_count == 0,
    {
        MockEmailProvider { should_succeed, send_count: 0 }
    }

    /// How many times `send` was called (saturating at `usize::MAX`).
    pub fn get_send_count(&self) -> (r: usize)
        ensures
            r == self.send_count,
    {
        self.send_count
    }
}

impl EmailProvider for MockEmailProvider {
    fn send(&mut self, email: &Email) -> (r: Result<String, EmailError>)
        ensures
            final(self).should_succeed == old(self).should_succeed,
            final(self).send_count == if old(self).send_count < usize::MAX {
                old(self).send_count + 1
            } else {
                old(self).send_count as int
            },
            old(self).should_succeed ==> r is Ok && r->Ok_0@ == mock_id(),
            !old(self).should_succeed ==> (r matches Err(EmailError::ProviderError(d)) && d@
                == mock_failure()),
    {
        if self.send_count < usize::MAX {
            self.send_count = self.send_count + 1;
        }
        if self.should_succeed {
            Ok(String::from_str("mock-email-id"))
        } else {
            Err(EmailError::ProviderError(String::from_str("Mock error")))
        }
    }

    fn health_check(&self) -> (r: bool)
        ensures
            r == self.should_succeed,
    {
        self.should_succeed
    }

    fn provider_name(&self) -> (r: &'static str)
        ensures
            r@ == "mock"@,
    {
        "mock"
    }
}

} // verus!
