//! Contact-sheet relay: renders contacts collected at trade shows as HTML
//! email, assembles their photo attachments and decides the HTTP reply of
//! each endpoint. Sending is left to an [`EmailProvider`].
pub mod config;
pub mod domain;
pub mod handlers;
pub mod provider;
pub mod templates;
pub mod text;

pub use config::{
    default_host, default_port, AppConfig, ConfigError, EmailConfig, SecurityConfig, ServerConfig,
};
pub use domain::{
    ApiResponse, ContactData, ContactFiche, ContactStatus, Email, EmailAttachment,
    ExportFichesRequest, ExportFichesResponse, HistoryEmailRequest,
};
pub use handlers::{
    export_fiches, export_outcome, health_check, health_response, history_outcome,
    photo_attachments_of, prepare_export, prepare_export_now, prepare_history, send_history_email, verify_api_key,
    HealthResponse, HistoryEmailResponse,
};
pub use provider::{sender_address, EmailError, EmailProvider, MockEmailProvider};
pub use templates::EmailTemplates;
pub use text::{decimal_string, html_escape};
