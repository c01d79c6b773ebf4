//! Domain values: contact sheets, outgoing emails and the request and reply
//! bodies of the export and history endpoints.
use crate::text::{decimal, decimal_string, starts_with};
use vstd::prelude::*;
use vstd::string::*;

verus! {

/// The view of an optional text.
pub open spec fn opt_view(o: Option<String>) -> Option<Seq<char>> {
    match o {
        Some(s) => Some(s@),
        None => None,
    }
}

// ---------------------------------------------------------------------------
// Contact sheets
// ---------------------------------------------------------------------------
/// Where a contact sheet stands in its delivery.
#[derive(Debug, Clone, Copy, PartialEq, Eq, Structural)]
pub enum ContactStatus {
    Pending,
    Sent,
    Error,
}

impl Default for ContactStatus {
    fn default() -> (r: ContactStatus)
        ensures
            r == ContactStatus::Pending,
    {
        ContactStatus::Pending
    }
}

/// A contact collected at a trade show, possibly with a photo of the
/// business card.
#[derive(Debug, Clone)]
pub struct ContactFiche {
    pub societe: String,
    pub contact: String,
    pub email: String,
    pub telephone: String,
    pub notes: String,
    pub sectors: String,
    pub status: Option<ContactStatus>,
    /// Creation time, in milliseconds since the Unix epoch.
    pub created_at: i64,
    /// Photo of the business card, base64-encoded.
    pub photo_base64: Option<String>,
    pub photo_filename: Option<String>,
}

pub struct FicheView {
    pub societe: Seq<char>,
    pub contact: Seq<char>,
    pub email: Seq<char>,
    pub telephone: Seq<char>,
    pub notes: Seq<char>,
    pub sectors: Seq<char>,
    pub status: Option<ContactStatus>,
    pub created_at: i64,
    pub photo_base64: Option<Seq<char>>,
    pub photo_filename: Option<Seq<char>>,
}

impl View for ContactFiche {
    type V = FicheView;

    open spec fn view(&self) -> FicheView {
        FicheView {
            societe: self.societe@,
            contact: self.contact@,
            email: self.email@,
            telephone: self.telephone@,
            notes: self.notes@,
            sectors: self.sectors@,
            status: self.status,
            created_at: self.created_at,
            photo_base64: opt_view(self.photo_base64),
            photo_filename: opt_view(self.photo_filename),
        }
    }
}

/// The views of a list of contact sheets.
pub open spec fn fiche_views(cs: Seq<ContactFiche>) -> Seq<FicheView> {
    cs.map_values(|c: ContactFiche| c@)
}

pub open spec fn is_ascii_alnum(c: char) -> bool {
    ('a' <= c && c <= 'z') || ('A' <= c && c <= 'Z') || ('0' <= c && c <= '9')
}

/// Whether a character outside ASCII is Unicode-alphabetic or numeric.
pub uninterp spec fn unicode_alnum_of(c: char) -> bool;

/// Alphanumeric in Unicode's sense; on ASCII exactly the letters and digits.
pub open spec fn is_alnum(c: char) -> bool {
    if (c as u32) < 128 {
        is_ascii_alnum(c)
    } else {
        unicode_alnum_of(c)
    }
}

/// Relies on `char::is_alphanumeric`: true for the Unicode Alphabetic and
/// Numeric characters, which within ASCII are exactly `A-Z`, `a-z`, `0-9`.
#[verifier::external_body]
fn char_is_alphanumeric(c: char) -> (r: bool)
    ensures
        (c as u32) < 128 ==> r == is_ascii_alnum(c),
        (c as u32) >= 128 ==> r == unicode_alnum_of(c),
{
    c.is_alphanumeric()
}

/// The character kept in a generated file name.
pub open spec fn safe_char(c: char) -> char {
    if is_alnum(c) {
        c
    } else {
        '_'
    }
}

/// A company name with every non-alphanumeric character replaced by `_`.
pub open spec fn safe_name(s: Seq<char>) -> Seq<char> {
    s.map_values(|c: char| safe_char(c))
}

/// The attachment name of a contact's photo: the explicit name if one was
/// given, else one derived from the company name.
pub open spec fn photo_filename_of(f: FicheView) -> Seq<char> {
    match f.photo_filename {
        Some(n) => n,
        None => "carte_visite_"@ + safe_name(f.societe) + ".jpg"@,
    }
}

impl ContactFiche {
    /// Whether the contact carries a photo.
    pub fn has_photo(&self) -> (r: bool)
        ensures
            r == self.photo_base64.is_some(),
    {
        self.photo_base64.is_some()
    }

    /// The file name under which the contact's photo is attached.
    pub fn safe_photo_filename(&self) -> (r: String)
        ensures
            r@ == photo_filename_of(self@),
    {
        match &self.photo_filename {
            Some(n) => n.clone(),
            None => {
                let name = self.societe.as_str();
                let n = name.unicode_len();
                let mut out = String::from_str("carte_visite_");
                let ghost start = out@;
                let mut i: usize = 0;
                while i < n
                    invariant
                        n == name@.len(),
                        name@ == self.societe@,
                        i <= n,
                        out@ == start + safe_name(name@.subrange(0, i as int)),
                    decreases n - i,
                {
                    let c = name.get_char(i);
                    if char_is_alphanumeric(c) {
                        out.append(name.substring_char(i, i + 1));
                    } else {
                        proof {
                            reveal_strlit("_");
                        }
                        out.append("_");
                    }
                    proof {
                        assert(safe_name(name@.subrange(0, i + 1)) =~= safe_name(
                            name@.subrange(0, i as int),
                        ).push(safe_char(c)));
                        assert(name@.subrange(i as int, i + 1) =~= seq![c]);
                    }
                    i = i + 1;
                }
                proof {
                    assert(name@.subrange(0, n as int) =~= name@);
                }
                out.append(".jpg");
                out
            },
        }
    }
}

/// A file name generated from a company name starts with `carte_visite_`
/// and holds neither `&` nor a space, whatever the company name.
pub proof fn lemma_generated_filename_is_safe(f: FicheView)
    requires
        f.photo_filename is None,
    ensures
        starts_with(photo_filename_of(f), "carte_visite_"@),
        !photo_filename_of(f).contains('&'),
        !photo_filename_of(f).contains(' '),
{
    reveal_strlit("carte_visite_");
    reveal_strlit(".jpg");
    let r = photo_filename_of(f);
    let p = "carte_visite_"@;
    let m = safe_name(f.societe);
    assert(r.subrange(0, p.len() as int) =~= p);
    assert forall|i: int| 0 <= i < r.len() implies r[i] != '&' && r[i] != ' ' by {
        if p.len() <= i < p.len() + m.len() {
            assert(r[i] == m[i - p.len()]);
        }
    }
}

// ---------------------------------------------------------------------------
// Emails
// ---------------------------------------------------------------------------
/// A file attached to an email.
#[derive(Debug, Clone)]
pub struct EmailAttachment {
    pub filename: String,
    pub content_base64: String,
    pub content_type: String,
}

pub struct AttachmentView {
    pub filename: Seq<char>,
    pub content_base64: Seq<char>,
    pub content_type: Seq<char>,
}

impl View for EmailAttachment {
    type V = AttachmentView;

    open spec fn view(&self) -> AttachmentView {
        AttachmentView {
            filename: self.filename@,
            content_base64: self.content_base64@,
            content_type: self.content_type@,
        }
    }
}

impl EmailAttachment {
    /// A JPEG image attachment.
    pub fn jpeg(filename: String, content_base64: String) -> (r: EmailAttachment)
        ensures
            r@ == (AttachmentView {
                filename: filename@,
                content_base64: content_base64@,
                content_type: "image/jpeg"@,
            }),
    {
        EmailAttachment { filename, content_base64, content_type: String::from_str("image/jpeg") }
    }
}

/// An email ready to be handed to a provider.
#[derive(Debug, Clone)]
pub struct Email {
    pub to: String,
    pub subject: String,
    pub html_body: String,
    pub attachments: Vec<EmailAttachment>,
}

pub struct EmailView {
    pub to: Seq<char>,
    pub subject: Seq<char>,
    pub html_body: Seq<char>,
    pub attachments: Seq<AttachmentView>,
}

impl View for Email {
    type V = EmailView;

    open spec fn view(&self) -> EmailView {
        EmailView {
            to: self.to@,
            subject: self.subject@,
            html_body: self.html_body@,
            attachments: self.attachments@.map_values(|a: EmailAttachment| a@),
        }
    }
}

// ---------------------------------------------------------------------------
// Export request and reply
// ---------------------------------------------------------------------------
/// Body of an export request.
#[derive(Debug, Clone)]
pub struct ExportFichesRequest {
    pub contacts: Vec<ContactFiche>,
    pub recipient_email: Option<String>,
    pub subject: Option<String>,
    pub export_date: Option<i64>,
    pub app_version: Option<String>,
}

/// Reply of the export endpoint, the same shape on success and on failure.
#[derive(Debug, Clone)]
pub struct ExportFichesResponse {
    pub success: bool,
    pub message: String,
    pub contacts_count: usize,
}

/// The message of a successful export of `count` sheets to `recipient`.
pub open spec fn export_success_message(count: nat, recipient: Seq<char>) -> Seq<char> {
    decimal(count) + " fiche(s) envoyée(s) avec succès à "@ + recipient
}

impl ExportFichesResponse {
    pub fn success(count: usize, recipient: &str) -> (r: ExportFichesResponse)
        ensures
            r.success,
            r.message@ == export_success_message(count as nat, recipient@),
            r.contacts_count == count,
    {
        let mut message = decimal_string(count);
        message.append(" fiche(s) envoyée(s) avec succès à ");
        message.append(recipient);
        ExportFichesResponse { success: true, message, contacts_count: count }
    }

    pub fn error(message: String) -> (r: ExportFichesResponse)
        ensures
            !r.success,
            r.message@ == message@,
            r.contacts_count == 0,
    {
        ExportFichesResponse { success: false, message, contacts_count: 0 }
    }
}

// ---------------------------------------------------------------------------
// History request
// ---------------------------------------------------------------------------
/// A contact as listed in a history email; every field is text.
#[derive(Debug, Clone)]
pub struct ContactData {
    pub societe: String,
    pub contact: String,
    pub email: String,
    pub telephone: String,
    pub notes: String,
    pub sectors: String,
    pub status: String,
    pub created_at: String,
}

pub struct ContactDataView {
    pub societe: Seq<char>,
    pub contact: Seq<char>,
    pub email: Seq<char>,
    pub telephone: Seq<char>,
    pub notes: Seq<char>,
    pub sectors: Seq<char>,
    pub status: Seq<char>,
    pub created_at: Seq<char>,
}

impl View for ContactData {
    type V = ContactDataView;

    open spec fn view(&self) -> ContactDataView {
        ContactDataView {
            societe: self.societe@,
            contact: self.contact@,
            email: self.email@,
            telephone: self.telephone@,
            notes: self.notes@,
            sectors: self.sectors@,
            status: self.status@,
            created_at: self.created_at@,
        }
    }
}

/// The views of a list of history contacts.
pub open spec fn data_views(cs: Seq<ContactData>) -> Seq<ContactDataView> {
    cs.map_values(|c: ContactData| c@)
}

/// Body of a history request.
#[derive(Debug, Clone)]
pub struct HistoryEmailRequest {
    pub recipient_email: String,
    pub contacts: Vec<ContactData>,
    pub total_contacts: usize,
    pub export_date: String,
}

// ---------------------------------------------------------------------------
// Generic envelope
// ---------------------------------------------------------------------------
/// A reply envelope: a success flag, an optional payload and a message.
#[derive(Debug, Clone)]
pub struct ApiResponse<T> {
    pub success: bool,
    pub data: Option<T>,
    pub message: String,
}

impl<T> ApiResponse<T> {
    pub fn success(data: T, message: String) -> (r: ApiResponse<T>)
        ensures
            r.success,
            r.data == Some(data),
            r.message@ == message@,
    {
        ApiResponse { success: true, data: Some(data), message }
    }

    pub fn error(message: String) -> (r: ApiResponse<T>)
        ensures
            !r.success,
            r.data is None,
            r.message@ == message@,
    {
        ApiResponse { success: false, data: None, message }
    }
}

} // verus!
