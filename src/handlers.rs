//! The decisions of each endpoint: authentication, validation, recipient and
//! subject resolution, rendering, attachment assembly and the reply that a
//! provider's outcome gives.
use crate::config::AppConfig;
use crate::domain::{
    data_views, fiche_views, photo_filename_of, AttachmentView, ContactFiche, Email,
    EmailAttachment, EmailView, ExportFichesRequest, ExportFichesResponse, FicheView,
    HistoryEmailRequest, export_success_message,
};
use crate::provider::{error_message, error_status, EmailError, EmailProvider};
use crate::templates::{export_doc, history_doc, now_label, photo_count, EmailTemplates};
use crate::text::{decimal, decimal_string};
use vstd::prelude::*;
use vstd::string::*;

verus! {

pub const MSG_UNAUTHORIZED: &'static str = "Clé API invalide";

pub const MSG_NO_FICHES: &'static str = "Aucune fiche contact à exporter";

pub const MSG_NO_HISTORY: &'static str = "Aucun contact dans l'historique";

pub const MSG_BAD_RECIPIENT: &'static str = "Validation échouée: Email destinataire invalide";

pub const MSG_SEND_FAILED: &'static str = "Erreur d'envoi: ";

// ---------------------------------------------------------------------------
// Authentication and address syntax
// ---------------------------------------------------------------------------
pub open spec fn opt_str_view(o: Option<&str>) -> Option<Seq<char>> {
    match o {
        Some(s) => Some(s@),
        None => None,
    }
}

/// A caller is let in when it presents exactly the configured key.
pub open spec fn authorized(supplied: Option<Seq<char>>, configured: Seq<char>) -> bool {
    supplied == Some(configured)
}

/// Checks the key that a caller presented; an absent key is refused.
pub fn verify_api_key(supplied: Option<&str>, config: &AppConfig) -> (r: Result<
    (),
    ExportFichesResponse,
>)
    ensures
        r is Ok <==> authorized(opt_str_view(supplied), config.security.api_key@),
        r matches Err(e) ==> !e.success && e.message@ == MSG_UNAUTHORIZED@ && e.contacts_count
            == 0,
{
    let ok = match supplied {
        Some(k) => String::from_str(k) == config.security.api_key,
        None => false,
    };
    if ok {
        Ok(())
    } else {
        Err(ExportFichesResponse::error(String::from_str(MSG_UNAUTHORIZED)))
    }
}

/// Whether text is an email address in the syntax of the HTML standard.
pub uninterp spec fn valid_email_of(s: Seq<char>) -> bool;

/// Relies on validator's `ValidateEmail::validate_email`: the HTML-standard
/// address syntax, with an internationalised domain allowed; text without
/// `@` is never an address.
#[verifier::external_body]
fn is_valid_email(s: &str) -> (r: bool)
    ensures
        r == valid_email_of(s@),
        !s@.contains('@') ==> !r,
{
    validator::ValidateEmail::validate_email(&s)
}

// ---------------------------------------------------------------------------
// Export
// ---------------------------------------------------------------------------
/// The status and message with which an export request is turned away, if
/// it is.
pub open spec fn export_rejection(
    key: Option<Seq<char>>,
    config: AppConfig,
    req: ExportFichesRequest,
) -> Option<(u16, Seq<char>)> {
    if !authorized(key, config.security.api_key@) {
        Some((401, MSG_UNAUTHORIZED@))
    } else if req.contacts@.len() == 0 {
        Some((400, MSG_NO_FICHES@))
    } else if req.recipient_email is Some && !valid_email_of(req.recipient_email->Some_0@) {
        Some((400, MSG_BAD_RECIPIENT@))
    } else {
        None
    }
}

/// The recipient of an export: the requested one, else the configured default.
pub open spec fn export_recipient(config: AppConfig, req: ExportFichesRequest) -> Seq<char> {
    match req.recipient_email {
        Some(r) => r@,
        None => config.email.default_recipient@,
    }
}

/// The subject of an export: the requested one, else one that gives the count.
pub open spec fn export_subject(req: ExportFichesRequest) -> Seq<char> {
    match req.subject {
        Some(s) => s@,
        None => "📋 Export "@ + decimal(req.contacts@.len()) + " fiches contacts - SMP Moules"@,
    }
}

/// One JPEG attachment per contact that carries a photo, in contact order.
pub open spec fn photo_attachments(cs: Seq<FicheView>) -> Seq<AttachmentView>
    decreases cs.len(),
{
    if cs.len() == 0 {
        Seq::empty()
    } else {
        let prev = photo_attachments(cs.drop_last());
        match cs.last().photo_base64 {
            Some(p) => prev.push(
                AttachmentView {
                    filename: photo_filename_of(cs.last()),
                    content_base64: p,
                    content_type: "image/jpeg"@,
                },
            ),
            None => prev,
        }
    }
}

/// Each contact that carries a photo gives exactly one attachment, so an
/// export sends as many attachments as there are photos.
pub proof fn lemma_one_attachment_per_photo(cs: Seq<FicheView>)
    ensures
        photo_attachments(cs).len() == photo_count(cs),
    decreases cs.len(),
{
    if cs.len() > 0 {
        lemma_one_attachment_per_photo(cs.drop_last());
    }
}

/// The email that an accepted export request gives, dated `date`.
pub open spec fn export_email(config: AppConfig, req: ExportFichesRequest, date: Seq<char>) -> EmailView {
    EmailView {
        to: export_recipient(config, req),
        subject: export_subject(req),
        html_body: export_doc(fiche_views(req.contacts@), date),
        attachments: photo_attachments(fiche_views(req.contacts@)),
    }
}

/// `r` is the export reply for the provider outcome `sent`.
pub open spec fn export_reply(
    r: (u16, ExportFichesResponse),
    sent: Result<String, EmailError>,
    count: nat,
    recipient: Seq<char>,
) -> bool {
    match sent {
        Ok(_) => r.0 == 200 && r.1.success && r.1.message@ == export_success_message(
            count,
            recipient,
        ) && r.1.contacts_count == count,
        Err(e) => r.0 == error_status(e) && !r.1.success && r.1.message@ == MSG_SEND_FAILED@
            + error_message(e) && r.1.contacts_count == 0,
    }
}

/// `r` is the refusal `(status, message)` in the export reply's shape.
pub open spec fn export_refusal(r: (u16, ExportFichesResponse), x: (u16, Seq<char>)) -> bool {
    r.0 == x.0 && !r.1.success && r.1.message@ == x.1 && r.1.contacts_count == 0
}

/// The attachments of the contacts that carry a photo.
pub fn photo_attachments_of(contacts: &Vec<ContactFiche>) -> (r: Vec<EmailAttachment>)
    ensures
        r@.map_values(|a: EmailAttachment| a@) == photo_attachments(fiche_views(contacts@)),
{
    let ghost cs = fiche_views(contacts@);
    let mut out: Vec<EmailAttachment> = Vec::new();
    let mut i: usize = 0;
    while i < contacts.len()
        invariant
            i <= contacts@.len(),
            cs == fiche_views(contacts@),
            out@.map_values(|a: EmailAttachment| a@) == photo_attachments(cs.subrange(0, i as int)),
        decreases contacts@.len() - i,
    {
        proof {
            assert(cs.subrange(0, i + 1).drop_last() =~= cs.subrange(0, i as int));
        }
        let c = &contacts[i];
        match &c.photo_base64 {
            Some(p) => {
                let a = EmailAttachment::jpeg(c.safe_photo_filename(), p.clone());
                let ghost before = out@;
                out.push(a);
                proof {
                    assert(out@.map_values(|a: EmailAttachment| a@) =~= before.map_values(
                        |a: EmailAttachment| a@,
                    ).push(a@));
                }
            },
            None => {},
        }
        i = i + 1;
    }
    proof {
        assert(cs.subrange(0, i as int) =~= cs);
    }
    out
}

/// Decides an export request up to the provider call: the refusal, or the
/// email to send, dated `date`.
pub fn prepare_export(
    supplied_key: Option<&str>,
    config: &AppConfig,
    req: &ExportFichesRequest,
    date: &str,
) -> (r: Result<Email, (u16, ExportFichesResponse)>)
    ensures
        export_rejection(opt_str_view(supplied_key), *config, *req) matches Some(x) ==> (r matches Err(
            e,
        ) && export_refusal(e, x)),
        export_rejection(opt_str_view(supplied_key), *config, *req) is None ==> (r matches Ok(e)
            && e@ == export_email(*config, *req, date@)),
{
    if let Err(resp) = verify_api_key(supplied_key, config) {
        return Err((401, resp));
    }
    if req.contacts.len() == 0 {
        return Err((400, ExportFichesResponse::error(String::from_str(MSG_NO_FICHES))));
    }
    let recipient = match &req.recipient_email {
        Some(r) => {
            if !is_valid_email(r.as_str()) {
                return Err((400, ExportFichesResponse::error(String::from_str(MSG_BAD_RECIPIENT))));
            }
            r.clone()
        },
        None => config.email.default_recipient.clone(),
    };
    let subject = match &req.subject {
        Some(s) => s.clone(),
        None => {
            let mut s = String::from_str("📋 Export ");
            s.append(decimal_string(req.contacts.len()).as_str());
            s.append(" fiches contacts - SMP Moules");
            s
        },
    };
    let html_body = EmailTemplates::export_fiches_html_at(req.contacts.as_slice(), date);
    let attachments = photo_attachments_of(&req.contacts);
    Ok(Email { to: recipient, subject, html_body, attachments })
}

/// Decides an export request up to the provider call, dating the document
/// with the current time.
pub fn prepare_export_now(
    supplied_key: Option<&str>,
    config: &AppConfig,
    req: &ExportFichesRequest,
) -> (r: Result<Email, (u16, ExportFichesResponse)>)
    ensures
        export_rejection(opt_str_view(supplied_key), *config, *req) matches Some(x) ==> (r matches Err(
            e,
        ) && export_refusal(e, x)),
        export_rejection(opt_str_view(supplied_key), *config, *req) is None ==> (r matches Ok(e)
            && exists|date: Seq<char>| e@ == export_email(*config, *req, date)),
{
    let date = now_label();
    prepare_export(supplied_key, config, req, date.as_str())
}

/// The export reply for a provider outcome.
pub fn export_outcome(sent: &Result<String, EmailError>, count: usize, recipient: &str) -> (r: (
    u16,
    ExportFichesResponse,
))
    ensures
        export_reply(r, *sent, count as nat, recipient@),
{
    match sent {
        Ok(_) => (200, ExportFichesResponse::success(count, recipient)),
        Err(e) => {
            let mut m = String::from_str(MSG_SEND_FAILED);
            m.append(e.message().as_str());
            (e.http_status(), ExportFichesResponse::error(m))
        },
    }
}

/// Handles an export request with `provider`: a refused request leaves the
/// provider untouched; an accepted one is sent once and answered by the
/// provider's outcome.
pub fn export_fiches<P: EmailProvider>(
    provider: &mut P,
    supplied_key: Option<&str>,
    config: &AppConfig,
    req: &ExportFichesRequest,
) -> (r: (u16, ExportFichesResponse))
    ensures
        export_rejection(opt_str_view(supplied_key), *config, *req) matches Some(x) ==> (
        export_refusal(r, x) && *final(provider) == *old(provider)),
        export_rejection(opt_str_view(supplied_key), *config, *req) is None ==> exists|
            sent: Result<String, EmailError>,
        |
            export_reply(r, sent, req.contacts@.len(), export_recipient(*config, *req)),
{
    match prepare_export_now(supplied_key, config, req) {
        Err(refusal) => refusal,
        Ok(email) => {
            let sent = provider.send(&email);
            export_outcome(&sent, req.contacts.len(), email.to.as_str())
        },
    }
}

// ---------------------------------------------------------------------------
// History
// ---------------------------------------------------------------------------
/// Reply of the history endpoint, the same shape on success and on failure.
#[derive(Debug, Clone)]
pub struct HistoryEmailResponse {
    pub success: bool,
    pub message: String,
    pub contacts_sent: usize,
}

pub open spec fn history_success_message(count: nat) -> Seq<char> {
    "Historique de "@ + decimal(count) + " contact(s) envoyé avec succès"@
}

impl HistoryEmailResponse {
    pub fn success(count: usize) -> (r: HistoryEmailResponse)
        ensures
            r.success,
            r.message@ == history_success_message(count as nat),
            r.contacts_sent == count,
    {
        let mut message = String::from_str("Historique de ");
        message.append(decimal_string(count).as_str());
        message.append(" contact(s) envoyé avec succès");
        HistoryEmailResponse { success: true, message, contacts_sent: count }
    }

    pub fn error(message: String) -> (r: HistoryEmailResponse)
        ensures
            !r.success,
            r.message@ == message@,
            r.contacts_sent == 0,
    {
        HistoryEmailResponse { success: false, message, contacts_sent: 0 }
    }
}

/// The status and message with which a history request is turned away, if
/// it is.
pub open spec fn history_rejection(
    key: Option<Seq<char>>,
    config: AppConfig,
    req: HistoryEmailRequest,
) -> Option<(u16, Seq<char>)> {
    if !authorized(key, config.security.api_key@) {
        Some((401, MSG_UNAUTHORIZED@))
    } else if req.contacts@.len() == 0 {
        Some((400, MSG_NO_HISTORY@))
    } else if !valid_email_of(req.recipient_email@) {
        Some((400, MSG_BAD_RECIPIENT@))
    } else {
        None
    }
}

/// The email that an accepted history request gives; it has no attachment.
pub open spec fn history_email(req: HistoryEmailRequest) -> EmailView {
    EmailView {
        to: req.recipient_email@,
        subject: "📊 Historique "@ + decimal(req.contacts@.len()) + " contacts - SMP Moules ("@
            + req.export_date@ + ")"@,
        html_body: history_doc(data_views(req.contacts@), req.export_date@),
        attachments: Seq::empty(),
    }
}

/// `r` is the history reply for the provider outcome `sent`.
pub open spec fn history_reply(
    r: (u16, HistoryEmailResponse),
    sent: Result<String, EmailError>,
    count: nat,
) -> bool {
    match sent {
        Ok(_) => r.0 == 200 && r.1.success && r.1.message@ == history_success_message(count)
            && r.1.contacts_sent == count,
        Err(e) => r.0 == error_status(e) && !r.1.success && r.1.message@ == MSG_SEND_FAILED@
            + error_message(e) && r.1.contacts_sent == 0,
    }
}

/// `r` is the refusal `(status, message)` in the history reply's shape.
pub open spec fn history_refusal(r: (u16, HistoryEmailResponse), x: (u16, Seq<char>)) -> bool {
    r.0 == x.0 && !r.1.success && r.1.message@ == x.1 && r.1.contacts_sent == 0
}

/// Decides a history request up to the provider call: the refusal, or the
/// email to send.
pub fn prepare_history(
    supplied_key: Option<&str>,
    config: &AppConfig,
    req: &HistoryEmailRequest,
) -> (r: Result<Email, (u16, HistoryEmailResponse)>)
    ensures
        history_rejection(opt_str_view(supplied_key), *config, *req) matches Some(x) ==> (r matches Err(
            e,
        ) && history_refusal(e, x)),
        history_rejection(opt_str_view(supplied_key), *config, *req) is None ==> (r matches Ok(e)
            && e@ == history_email(*req)),
{
    if verify_api_key(supplied_key, config).is_err() {
        return Err((401, HistoryEmailResponse::error(String::from_str(MSG_UNAUTHORIZED))));
    }
    if req.contacts.len() == 0 {
        return Err((400, HistoryEmailResponse::error(String::from_str(MSG_NO_HISTORY))));
    }
    if !is_valid_email(req.recipient_email.as_str()) {
        return Err((400, HistoryEmailResponse::error(String::from_str(MSG_BAD_RECIPIENT))));
    }
    let mut subject = String::from_str("📊 Historique ");
    subject.append(decimal_string(req.contacts.len()).as_str());
    subject.append(" contacts - SMP Moules (");
    subject.append(req.export_date.as_str());
    subject.append(")");
    let html_body = EmailTemplates::history_email_html(
        req.contacts.as_slice(),
        req.export_date.as_str(),
    );
    let attachments: Vec<EmailAttachment> = Vec::new();
    let email = Email { to: req.recipient_email.clone(), subject, html_body, attachments };
    proof {
        assert(email@.attachments =~= Seq::<AttachmentView>::empty());
    }
    Ok(email)
}

/// The history reply for a provider outcome.
pub fn history_outcome(sent: &Result<String, EmailError>, count: usize) -> (r: (
    u16,
    HistoryEmailResponse,
))
    ensures
        history_reply(r, *sent, count as nat),
{
    match sent {
        Ok(_) => (200, HistoryEmailResponse::success(count)),
        Err(e) => {
            let mut m = String::from_str(MSG_SEND_FAILED);
            m.append(e.message().as_str());
            (e.http_status(), HistoryEmailResponse::error(m))
        },
    }
}

/// Handles a history request with `provider`: a refused request leaves the
/// provider untouched; an accepted one is sent once and answered by the
/// provider's outcome.
pub fn send_history_email<P: EmailProvider>(
    provider: &mut P,
    supplied_key: Option<&str>,
    config: &AppConfig,
    req: &HistoryEmailRequest,
) -> (r: (u16, HistoryEmailResponse))
    ensures
        history_rejection(opt_str_view(supplied_key), *config, *req) matches Some(x) ==> (
        history_refusal(r, x) && *final(provider) == *old(provider)),
        history_rejection(opt_str_view(supplied_key), *config, *req) is None ==> exists|
            sent: Result<String, EmailError>,
        | history_reply(r, sent, req.contacts@.len()),
{
    match prepare_history(supplied_key, config, req) {
        Err(refusal) => refusal,
        Ok(email) => {
            let sent = provider.send(&email);
            history_outcome(&sent, req.contacts.len())
        },
    }
}

// ---------------------------------------------------------------------------
// Health
// ---------------------------------------------------------------------------
/// Reply of the health endpoint.
#[derive(Debug, Clone, Copy)]
pub struct HealthResponse {
    pub status: &'static str,
    pub version: &'static str,
    pub email_provider: &'static str,
    pub email_available: bool,
}

/// The health reply: 200 and "healthy" when the provider can be reached,
/// else 503 and "degraded".
pub fn health_response(
    email_available: bool,
    email_provider: &'static str,
    version: &'static str,
) -> (r: (u16, HealthResponse))
    ensures
        r.0 == if email_available {
            200u16
        } else {
            503u16
        },
        r.1.status@ == if email_available {
            "healthy"@
        } else {
            "degraded"@
        },
        r.1.version == version,
        r.1.email_provider == email_provider,
        r.1.email_available == email_available,
{
    let status = if email_available {
        "healthy"
    } else {
        "degraded"
    };
    let resp = HealthResponse { status, version, email_provider, email_available };
    if email_available {
        (200, resp)
    } else {
        (503, resp)
    }
}

/// Probes `provider` and gives the health reply.
pub fn health_check<P: EmailProvider>(provider: &P, version: &'static str) -> (r: (
    u16,
    HealthResponse,
))
    ensures
        r.0 == 200 <==> r.1.email_available,
        r.0 == 200 || r.0 == 503,
        r.1.version == version,
{
    let available = provider.health_check();
    health_response(available, provider.provider_name(), version)
}

} // verus!
