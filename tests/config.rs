use smp_backend::{default_host, default_port, AppConfig, ConfigError};

#[test]
fn test_default_values() {
    assert_eq!(default_host(), "0.0.0.0");
    assert_eq!(default_port(), 8080);
}

#[test]
fn config_requires_provider_key() {
    let r = AppConfig::from_values(None, None, None, None, None, None, None);
    match r {
        Err(e) => {
            assert!(matches!(e, ConfigError::MissingEnvVar("RESEND_API_KEY")));
            assert_eq!(e.message(), "Variable d'environnement manquante: RESEND_API_KEY");
        }
        Ok(_) => panic!("a missing provider key must be refused"),
    }
}

#[test]
fn config_defaults_and_overrides() {
    let c = AppConfig::from_values(None, None, Some("re_x".to_string()), None, None, None, None).unwrap();
    assert_eq!(c.server.host, "0.0.0.0");
    assert_eq!(c.server.port, 8080);
    assert_eq!(c.email.resend_api_key, "re_x");
    assert_eq!(c.email.from_name, "SMP Moules");
    assert_eq!(c.email.from_email, "noreply@smp-moules.com");
    assert_eq!(c.email.default_recipient, "commercial@smp-moules.com");
    assert_eq!(c.security.api_key, "dev-api-key");
    let c = AppConfig::from_values(
        Some("127.0.0.1".to_string()),
        Some(9000),
        Some("re_y".to_string()),
        Some("Me".to_string()),
        Some("me@x.fr".to_string()),
        Some("boss@x.fr".to_string()),
        Some("k".to_string()),
    )
    .unwrap();
    assert_eq!(c.server.host, "127.0.0.1");
    assert_eq!(c.server.port, 9000);
    assert_eq!(c.email.from_name, "Me");
    assert_eq!(c.email.from_email, "me@x.fr");
    assert_eq!(c.email.default_recipient, "boss@x.fr");
    assert_eq!(c.security.api_key, "k");
}
