use smp_backend::{Email, EmailError, EmailProvider, MockEmailProvider};

fn email() -> Email {
    Email {
        to: "a@b.fr".to_string(),
        subject: "s".to_string(),
        html_body: "<p>x</p>".to_string(),
        attachments: vec![],
    }
}

#[test]
fn mock_failure_counts_and_fails() {
    let mut mock = MockEmailProvider::new(false);
    let r = mock.send(&email());
    assert_eq!(mock.get_send_count(), 1);
    assert!(matches!(r, Err(EmailError::ProviderError(ref d)) if d == "Mock error"));
    assert!(!mock.health_check());
    assert_eq!(mock.provider_name(), "mock");
}

#[test]
fn mock_success_returns_fixed_id() {
    let mut mock = MockEmailProvider::new(true);
    assert_eq!(mock.send(&email()).unwrap(), "mock-email-id");
    assert_eq!(mock.send(&email()).unwrap(), "mock-email-id");
    assert_eq!(mock.get_send_count(), 2);
    assert!(mock.health_check());
}

#[test]
fn error_messages() {
    assert_eq!(EmailError::ConnectionError("t".to_string()).message(), "Erreur de connexion au service email: t");
    assert_eq!(EmailError::AuthenticationError("t".to_string()).message(), "Erreur d'authentification: t");
    assert_eq!(EmailError::InvalidRequest("t".to_string()).message(), "Requête invalide: t");
    assert_eq!(EmailError::RateLimited.message(), "Limite de taux dépassée");
    assert_eq!(EmailError::InvalidRecipient("t".to_string()).message(), "Destinataire invalide: t");
    assert_eq!(EmailError::ProviderError("t".to_string()).message(), "Erreur interne du service: t");
}

#[test]
fn error_statuses() {
    assert_eq!(EmailError::ConnectionError("t".to_string()).http_status(), 500);
    assert_eq!(EmailError::AuthenticationError("t".to_string()).http_status(), 500);
    assert_eq!(EmailError::InvalidRequest("t".to_string()).http_status(), 400);
    assert_eq!(EmailError::RateLimited.http_status(), 503);
    assert_eq!(EmailError::InvalidRecipient("t".to_string()).http_status(), 400);
    assert_eq!(EmailError::ProviderError("t".to_string()).http_status(), 500);
}

#[test]
fn http_reply_classification() {
    assert!(matches!(EmailError::from_http_status(401, "401 Unauthorized", "b".to_string()),
        EmailError::AuthenticationError(ref d) if d == "Clé API invalide"));
    assert!(matches!(EmailError::from_http_status(422, "422 Unprocessable Entity", "bad to".to_string()),
        EmailError::InvalidRequest(ref d) if d == "bad to"));
    assert!(matches!(EmailError::from_http_status(429, "429 Too Many Requests", "".to_string()),
        EmailError::RateLimited));
    assert!(matches!(EmailError::from_http_status(500, "500 Internal Server Error", "oops".to_string()),
        EmailError::ProviderError(ref d) if d == "HTTP 500 Internal Server Error: oops"));
    assert!(matches!(EmailError::unreadable_reply("eof"),
        EmailError::ProviderError(ref d) if d == "Erreur parsing réponse: eof"));
}
