//! Process configuration, resolved from optional raw values with defaults.
use vstd::prelude::*;
use vstd::string::*;

verus! {

/// Where the HTTP server listens.
#[derive(Debug, Clone)]
pub struct ServerConfig {
    pub host: String,
    pub port: u16,
}

/// How emails are sent and where exports go by default.
#[derive(Debug, Clone)]
pub struct EmailConfig {
    pub resend_api_key: String,
    pub from_name: String,
    pub from_email: String,
    pub default_recipient: String,
}

/// The shared key that callers present in `X-API-Key`.
#[derive(Debug, Clone)]
pub struct SecurityConfig {
    pub api_key: String,
}

#[derive(Debug, Clone)]
pub struct AppConfig {
    pub server: ServerConfig,
    pub email: EmailConfig,
    pub security: SecurityConfig,
}

/// A configuration that cannot be completed.
#[derive(Debug, Clone, Copy)]
pub enum ConfigError {
    /// A mandatory variable is absent; it carries the variable's name.
    MissingEnvVar(&'static str),
}

impl ConfigError {
    /// The human-readable message of the error.
    pub fn message(&self) -> (r: String)
        ensures
            match *self {
                ConfigError::MissingEnvVar(name) => r@ == "Variable d'environnement manquante: "@
                    + name@,
            },
    {
        match self {
            ConfigError::MissingEnvVar(name) => {
                let mut m = String::from_str("Variable d'environnement manquante: ");
                m.append(name);
                m
            },
        }
    }
}

pub fn default_host() -> (r: String)
    ensures
        r@ == "0.0.0.0"@,
{
    String::from_str("0.0.0.0")
}

pub fn default_port() -> (r: u16)
    ensures
        r == 8080,
{
    8080
}

/// The given value, or `default` when there is none.
pub open spec fn or_default(v: Option<String>, default: Seq<char>) -> Seq<char> {
    match v {
        Some(s) => s@,
        None => default,
    }
}

fn value_or(v: Option<String>, default: &str) -> (r: String)
    ensures
        r@ == or_default(v, default@),
{
    match v {
        Some(s) => s,
        None => String::from_str(default),
    }
}

impl AppConfig {
    /// The configuration from raw values, each absent when unset. Only the
    /// provider credential is mandatory; every other value has a default.
    pub fn from_values(
        host: Option<String>,
        port: Option<u16>,
        resend_api_key: Option<String>,
        from_name: Option<String>,
        from_email: Option<String>,
        default_recipient: Option<String>,
        api_key: Option<String>,
    ) -> (r: Result<AppConfig, ConfigError>)
        ensures
            resend_api_key is None <==> r is Err,
            r matches Err(ConfigError::MissingEnvVar(name)) ==> name@ == "RESEND_API_KEY"@,
            r matches Ok(c) ==> {
                &&& c.server.host@ == or_default(host, "0.0.0.0"@)
                &&& c.server.port == match port {
                    Some(p) => p,
                    None => 8080,
                }
                &&& c.email.resend_api_key@ == resend_api_key->Some_0@
                &&& c.email.from_name@ == or_default(from_name, "SMP Moules"@)
                &&& c.email.from_email@ == or_default(from_email, "noreply@smp-moules.com"@)
                &&& c.email.default_recipient@ == or_default(
                    default_recipient,
                    "commercial@smp-moules.com"@,
                )
                &&& c.security.api_key@ == or_default(api_key, "dev-api-key"@)
            },
    {
        let key = match resend_api_key {
            Some(k) => k,
            None => {
                return Err(ConfigError::MissingEnvVar("RESEND_API_KEY"));
            },
        };
        let host = match host {
            Some(h) => h,
            None => default_host(),
        };
        let port = match port {
            Some(p) => p,
            None => default_port(),
        };
        Ok(
            AppConfig {
                server: ServerConfig { host, port },
                email: EmailConfig {
                    resend_api_key: key,
                    from_name: value_or(from_name, "SMP Moules"),
                    from_email: value_or(from_email, "noreply@smp-moules.com"),
                    default_recipient: value_or(default_recipient, "commercial@smp-moules.com"),
                },
                security: SecurityConfig { api_key: value_or(api_key, "dev-api-key") },
            },
        )
    }
}

} // verus!
