//! HTML documents of the export and history emails. Every value that comes
//! from a contact is escaped before it is placed in markup.
use crate::domain::{
    data_views, fiche_views, ContactData, ContactDataView, ContactFiche, ContactStatus, FicheView,
};
use crate::text::{
    count_char, decimal, decimal_string, escape_seq, html_escape, lemma_count_concat,
    lemma_escape_has_no_angle, contains,
};
use vstd::prelude::*;
use vstd::string::*;

verus! {

// ---------------------------------------------------------------------------
// Markup pieces
// ---------------------------------------------------------------------------
pub const BADGE_SENT_OPEN: &'static str =
    r#"<span style="background:#4CAF50;color:white;padding:2px 8px;border-radius:12px;font-size:11px;">"#;

pub const BADGE_PENDING_OPEN: &'static str =
    r#"<span style="background:#FF9800;color:white;padding:2px 8px;border-radius:12px;font-size:11px;">"#;

pub const BADGE_ERROR_OPEN: &'static str =
    r#"<span style="background:#f44336;color:white;padding:2px 8px;border-radius:12px;font-size:11px;">"#;

pub const BADGE_CLOSE: &'static str = "</span>";

pub const LABEL_SENT: &'static str = "Envoyé";

pub const LABEL_PENDING: &'static str = "En attente";

pub const LABEL_ERROR: &'static str = "Erreur";

pub const PHOTO_ICON: &'static str = " 📷";

pub const ROW_SEPARATOR: &'static str = "\n";

pub const ROW_BG_EVEN: &'static str = "#ffffff";

pub const ROW_BG_ODD: &'static str = "#f9f9f9";

pub const ROW_OPEN: &'static str = r#"<tr style="background:"#;

pub const ROW_COMPANY: &'static str = r#";border-bottom:1px solid #eee;">
                        <td style="padding:12px;font-weight:bold;">"#;

pub const ROW_CELL: &'static str = r#"</td>
                        <td style="padding:12px;">"#;

pub const ROW_MAIL_OPEN: &'static str = r#"</td>
                        <td style="padding:12px;"><a href="mailto:"#;

pub const ROW_MAIL_TEXT: &'static str = r#"" style="color:#CC0033;text-decoration:none;">"#;

pub const ROW_MAIL_CLOSE: &'static str = r#"</a></td>
                        <td style="padding:12px;">"#;

pub const ROW_SECTORS: &'static str = r#"</td>
                        <td style="padding:12px;"><span style="background:#f0f0f0;padding:2px 8px;border-radius:4px;font-size:12px;">"#;

pub const ROW_NOTES: &'static str = r#"</span></td>
                        <td style="padding:12px;font-size:12px;color:#666;max-width:150px;overflow:hidden;text-overflow:ellipsis;">"#;

pub const ROW_STATUS: &'static str = r#"</td>
                        <td style="padding:12px;">"#;

pub const ROW_CLOSE: &'static str = r#"</td>
                    </tr>"#;

pub const EXPORT_HEAD: &'static str = r#"<!DOCTYPE html>
<html lang="fr">
<head>
    <meta charset="utf-8">
    <meta name="viewport" content="width=device-width, initial-scale=1.0">
    <title>Export Fiches Contacts - SMP Moules</title>
</head>
<body style="font-family:-apple-system,BlinkMacSystemFont,'Segoe UI',Roboto,sans-serif;margin:0;padding:0;background:#f5f5f5;">
    <div style="max-width:900px;margin:0 auto;background:white;">
        <!-- Header -->
        <div style="background:linear-gradient(135deg, #CC0033 0%, #990026 100%);padding:30px;text-align:center;">
            <h1 style="color:white;margin:0;font-size:28px;">📋 Export Fiches Contacts</h1>
            <p style="color:rgba(255,255,255,0.9);margin:10px 0 0 0;">SMP Moules - Application Salon</p>
        </div>

        <!-- Résumé -->
        <div style="padding:20px 30px;background:#f8f9fa;border-bottom:1px solid #eee;">
            <table style="width:100%;">
                <tr>
                    <td style="color:#333;">
                        <strong>"#;

pub const EXPORT_COUNT_SUFFIX: &'static str = " fiche(s)";

pub const EXPORT_DATE_OPEN: &'static str = "</strong> contact exportée(s) le <strong>";

pub const EXPORT_PHOTO_CELL: &'static str = r#"</strong>
                    </td>
                    <td style="text-align:right;color:#666;">
                        "#;

pub const PHOTO_INFO_OPEN: &'static str = "📷 ";

pub const PHOTO_INFO_CLOSE: &'static str = " photo(s) jointe(s)";

pub const EXPORT_TABLE_OPEN: &'static str = r#"
                    </td>
                </tr>
            </table>
        </div>

        <!-- Tableau des contacts -->
        <div style="padding:20px;overflow-x:auto;">
            <table style="width:100%;border-collapse:collapse;font-size:14px;">
                <thead>
                    <tr style="background:#CC0033;color:white;">
                        <th style="padding:12px;text-align:left;border-radius:4px 0 0 0;">Société</th>
                        <th style="padding:12px;text-align:left;">Contact</th>
                        <th style="padding:12px;text-align:left;">Email</th>
                        <th style="padding:12px;text-align:left;">Téléphone</th>
                        <th style="padding:12px;text-align:left;">Secteurs</th>
                        <th style="padding:12px;text-align:left;">Notes</th>
                        <th style="padding:12px;text-align:left;border-radius:0 4px 0 0;">Statut</th>
                    </tr>
                </thead>
                <tbody>
                    "#;

pub const EXPORT_TABLE_CLOSE: &'static str = r#"
                </tbody>
            </table>
        </div>

        <!-- Footer -->
        <div style="padding:20px 30px;background:#333;color:white;text-align:center;border-radius:0 0 4px 4px;">
            "#;

pub const EXPORT_PHOTO_FOOTER: &'static str =
    r#"<p style="margin:0;font-size:14px;">📷 Les photos de cartes de visite sont disponibles en pièces jointes</p>"#;

pub const EXPORT_TAIL: &'static str = r#"
            <p style="margin:10px 0 0 0;font-size:12px;color:#999;">
                SMP Moules - Expert en conception et fabrication de moules de haute précision
            </p>
        </div>
    </div>
</body>
</html>"#;

pub const HISTORY_HEAD: &'static str = r#"<!DOCTYPE html>
<html lang="fr">
<head>
    <meta charset="utf-8">
    <meta name="viewport" content="width=device-width, initial-scale=1.0">
    <title>Historique Contacts - SMP Moules</title>
</head>
<body style="font-family:-apple-system,BlinkMacSystemFont,'Segoe UI',Roboto,sans-serif;margin:0;padding:0;background:#f5f5f5;">
    <div style="max-width:800px;margin:0 auto;background:white;">
        <!-- Header -->
        <div style="background:linear-gradient(135deg, #CC0033 0%, #990026 100%);padding:30px;text-align:center;">
            <h1 style="color:white;margin:0;font-size:24px;">📊 Historique des Contacts</h1>
            <p style="color:rgba(255,255,255,0.9);margin:10px 0 0 0;">SMP Moules</p>
        </div>

        <!-- Info -->
        <div style="padding:15px 30px;background:#f8f9fa;border-bottom:1px solid #eee;">
            <p style="margin:0;color:#333;">
                Export du <strong>"#;

pub const HISTORY_COUNT_OPEN: &'static str = "</strong> - <strong>";

pub const HISTORY_LIST_OPEN: &'static str = r#"</strong> contact(s)
            </p>
        </div>

        <!-- Liste -->
        <div style="padding:20px;">
            "#;

pub const HISTORY_TAIL: &'static str = r#"
        </div>

        <!-- Footer -->
        <div style="padding:20px;background:#333;color:white;text-align:center;">
            <p style="margin:0;font-size:12px;color:#999;">
                SMP Moules - www.smp-moules.com
            </p>
        </div>
    </div>
</body>
</html>"#;

pub const CARD_OPEN: &'static str = r#"<div style="border:1px solid #eee;border-radius:8px;padding:15px;margin-bottom:10px;">
                        <div style="display:flex;justify-content:space-between;align-items:center;margin-bottom:10px;">
                            <strong style="font-size:16px;color:#333;">"#;

pub const CARD_DATE: &'static str = r#"</strong>
                            <span style="font-size:12px;color:#999;">"#;

pub const CARD_CONTACT: &'static str = r#"</span>
                        </div>
                        <p style="margin:5px 0;color:#666;">👤 "#;

pub const CARD_MAIL_OPEN: &'static str = r#"</p>
                        <p style="margin:5px 0;"><a href="mailto:"#;

pub const CARD_MAIL_TEXT: &'static str = r#"" style="color:#CC0033;">"#;

pub const CARD_PHONE: &'static str = r#"</a></p>
                        <p style="margin:5px 0;color:#666;">📞 "#;

pub const CARD_NOTES: &'static str = r#"</p>
                        "#;

pub const CARD_CLOSE: &'static str = r#"
                    </div>"#;

pub const NOTES_OPEN: &'static str =
    r#"<p style="margin:10px 0 0 0;padding:10px;background:#f9f9f9;border-radius:4px;font-size:13px;color:#666;">📝 "#;

pub const NOTES_CLOSE: &'static str = "</p>";

// ---------------------------------------------------------------------------
// Export document
// ---------------------------------------------------------------------------
/// The badge shown for a delivery status; none when the status is absent.
pub open spec fn badge_of(s: Option<ContactStatus>) -> Seq<char> {
    match s {
        Some(ContactStatus::Sent) => BADGE_SENT_OPEN@ + LABEL_SENT@ + BADGE_CLOSE@,
        Some(ContactStatus::Pending) => BADGE_PENDING_OPEN@ + LABEL_PENDING@ + BADGE_CLOSE@,
        Some(ContactStatus::Error) => BADGE_ERROR_OPEN@ + LABEL_ERROR@ + BADGE_CLOSE@,
        None => Seq::empty(),
    }
}

/// Background colour of the row at position `i`.
pub open spec fn row_background(i: nat) -> Seq<char> {
    if i % 2 == 0 {
        ROW_BG_EVEN@
    } else {
        ROW_BG_ODD@
    }
}

pub open spec fn photo_icon_of(f: FicheView) -> Seq<char> {
    if f.photo_base64 is Some {
        PHOTO_ICON@
    } else {
        Seq::empty()
    }
}

/// The table row of the contact at position `i`.
pub open spec fn export_row(i: nat, f: FicheView) -> Seq<char> {
    ROW_OPEN@ + row_background(i) + ROW_COMPANY@ + escape_seq(f.societe) + ROW_CELL@ + escape_seq(
        f.contact,
    ) + ROW_MAIL_OPEN@ + escape_seq(f.email) + ROW_MAIL_TEXT@ + escape_seq(f.email)
        + ROW_MAIL_CLOSE@ + escape_seq(f.telephone) + ROW_SECTORS@ + escape_seq(f.sectors)
        + ROW_NOTES@ + escape_seq(f.notes) + ROW_STATUS@ + badge_of(f.status) + photo_icon_of(f)
        + ROW_CLOSE@
}

/// The rows of all contacts, one per line.
pub open spec fn export_rows(cs: Seq<FicheView>) -> Seq<char>
    decreases cs.len(),
{
    if cs.len() == 0 {
        Seq::empty()
    } else if cs.len() == 1 {
        export_row(0, cs[0])
    } else {
        export_rows(cs.drop_last()) + ROW_SEPARATOR@ + export_row((cs.len() - 1) as nat, cs.last())
    }
}

/// How many contacts carry a photo.
pub open spec fn photo_count(cs: Seq<FicheView>) -> nat
    decreases cs.len(),
{
    if cs.len() == 0 {
        0
    } else {
        photo_count(cs.drop_last()) + if cs.last().photo_base64 is Some {
            1nat
        } else {
            0nat
        }
    }
}

pub open spec fn photo_info(pc: nat) -> Seq<char> {
    if pc > 0 {
        PHOTO_INFO_OPEN@ + decimal(pc) + PHOTO_INFO_CLOSE@
    } else {
        Seq::empty()
    }
}

pub open spec fn photo_footer(pc: nat) -> Seq<char> {
    if pc > 0 {
        EXPORT_PHOTO_FOOTER@
    } else {
        Seq::empty()
    }
}

/// The export document of `cs`, dated `date`.
pub open spec fn export_doc(cs: Seq<FicheView>, date: Seq<char>) -> Seq<char> {
    EXPORT_HEAD@ + decimal(cs.len()) + EXPORT_COUNT_SUFFIX@ + EXPORT_DATE_OPEN@ + date
        + EXPORT_PHOTO_CELL@ + photo_info(photo_count(cs)) + EXPORT_TABLE_OPEN@ + export_rows(cs)
        + EXPORT_TABLE_CLOSE@ + photo_footer(photo_count(cs)) + EXPORT_TAIL@
}

// ---------------------------------------------------------------------------
// History document
// ---------------------------------------------------------------------------
/// The notes block of a history card; absent when the notes are empty.
pub open spec fn notes_block(notes: Seq<char>) -> Seq<char> {
    if notes.len() == 0 {
        Seq::empty()
    } else {
        NOTES_OPEN@ + escape_seq(notes) + NOTES_CLOSE@
    }
}

/// The card of one history contact.
pub open spec fn history_card(c: ContactDataView) -> Seq<char> {
    CARD_OPEN@ + escape_seq(c.societe) + CARD_DATE@ + escape_seq(c.created_at) + CARD_CONTACT@
        + escape_seq(c.contact) + CARD_MAIL_OPEN@ + escape_seq(c.email) + CARD_MAIL_TEXT@
        + escape_seq(c.email) + CARD_PHONE@ + escape_seq(c.telephone) + CARD_NOTES@ + notes_block(
        c.notes,
    ) + CARD_CLOSE@
}

/// The cards of all history contacts, one per line.
pub open spec fn history_cards(cs: Seq<ContactDataView>) -> Seq<char>
    decreases cs.len(),
{
    if cs.len() == 0 {
        Seq::empty()
    } else if cs.len() == 1 {
        history_card(cs[0])
    } else {
        history_cards(cs.drop_last()) + ROW_SEPARATOR@ + history_card(cs.last())
    }
}

/// The history document of `cs`, labelled with the export date `date`.
pub open spec fn history_doc(cs: Seq<ContactDataView>, date: Seq<char>) -> Seq<char> {
    HISTORY_HEAD@ + escape_seq(date) + HISTORY_COUNT_OPEN@ + decimal(cs.len())
        + HISTORY_LIST_OPEN@ + history_cards(cs) + HISTORY_TAIL@
}

// ---------------------------------------------------------------------------
// Laws of the export document
// ---------------------------------------------------------------------------
/// A contact with every text field emptied; status and photo are kept.
pub open spec fn blank_fiche(f: FicheView) -> FicheView {
    FicheView {
        societe: Seq::empty(),
        contact: Seq::empty(),
        email: Seq::empty(),
        telephone: Seq::empty(),
        notes: Seq::empty(),
        sectors: Seq::empty(),
        status: f.status,
        created_at: f.created_at,
        photo_base64: f.photo_base64,
        photo_filename: f.photo_filename,
    }
}

pub open spec fn blank_fiches(cs: Seq<FicheView>) -> Seq<FicheView> {
    cs.map_values(|f: FicheView| blank_fiche(f))
}

proof fn lemma_row_markup(i: nat, f: FicheView)
    ensures
        count_char(export_row(i, f), '<') == count_char(export_row(i, blank_fiche(f)), '<'),
{
    broadcast use lemma_count_concat;

    lemma_escape_has_no_angle(f.societe);
    lemma_escape_has_no_angle(f.contact);
    lemma_escape_has_no_angle(f.email);
    lemma_escape_has_no_angle(f.telephone);
    lemma_escape_has_no_angle(f.sectors);
    lemma_escape_has_no_angle(f.notes);
    lemma_escape_has_no_angle(Seq::empty());
}

proof fn lemma_rows_markup(cs: Seq<FicheView>)
    ensures
        count_char(export_rows(cs), '<') == count_char(export_rows(blank_fiches(cs)), '<'),
        photo_count(cs) == photo_count(blank_fiches(cs)),
    decreases cs.len(),
{
    broadcast use lemma_count_concat;

    let b = blank_fiches(cs);
    if cs.len() > 0 {
        assert(b.drop_last() =~= blank_fiches(cs.drop_last()));
        lemma_rows_markup(cs.drop_last());
        lemma_row_markup((cs.len() - 1) as nat, cs.last());
        if cs.len() == 1 {
            lemma_row_markup(0, cs[0]);
        }
    }
}

proof fn lemma_export_markup(cs: Seq<FicheView>, date: Seq<char>)
    ensures
        count_char(export_doc(cs, date), '<') == count_char(
            export_doc(blank_fiches(cs), date),
            '<',
        ),
{
    broadcast use lemma_count_concat;

    lemma_rows_markup(cs);
    assert(blank_fiches(cs).len() == cs.len());
}

proof fn lemma_export_states_count(cs: Seq<FicheView>, date: Seq<char>)
    ensures
        contains(export_doc(cs, date), decimal(cs.len()) + EXPORT_COUNT_SUFFIX@),
{
    let doc = export_doc(cs, date);
    let h = EXPORT_HEAD@;
    let p = decimal(cs.len()) + EXPORT_COUNT_SUFFIX@;
    let a = h + decimal(cs.len()) + EXPORT_COUNT_SUFFIX@;
    let rest = EXPORT_DATE_OPEN@ + date + EXPORT_PHOTO_CELL@ + photo_info(photo_count(cs))
        + EXPORT_TABLE_OPEN@ + export_rows(cs) + EXPORT_TABLE_CLOSE@ + photo_footer(
        photo_count(cs),
    ) + EXPORT_TAIL@;
    assert(doc =~= a + rest);
    assert(doc.subrange(h.len() as int, (h.len() + p.len()) as int) =~= p);
}

/// Contact text never adds markup to the export document: it holds exactly
/// as many `<` as the document of the same contacts with every text field
/// emptied, so no tag (a `<script>` among them) can come from a contact. The
/// document also states the number of contacts as "N fiche(s)".
pub proof fn lemma_export_text_adds_no_markup(cs: Seq<FicheView>, date: Seq<char>)
    ensures
        count_char(export_doc(cs, date), '<') == count_char(
            export_doc(blank_fiches(cs), date),
            '<',
        ),
        contains(export_doc(cs, date), decimal(cs.len()) + " fiche(s)"@),
{
    lemma_export_markup(cs, date);
    lemma_export_states_count(cs, date);
}

/// Every delivery status has its badge: "Envoyé" for sent, "En attente" for
/// pending, "Erreur" for error, and no badge at all when the status is absent.
pub proof fn lemma_status_badge_total(s: Option<ContactStatus>)
    ensures
        s == Some(ContactStatus::Sent) ==> contains(badge_of(s), "Envoyé"@),
        s == Some(ContactStatus::Pending) ==> contains(badge_of(s), "En attente"@),
        s == Some(ContactStatus::Error) ==> contains(badge_of(s), "Erreur"@),
        s is None ==> badge_of(s).len() == 0,
{
    let b = badge_of(s);
    match s {
        Some(ContactStatus::Sent) => {
            let k = BADGE_SENT_OPEN@.len() as int;
            assert(b.subrange(k, k + LABEL_SENT@.len()) =~= LABEL_SENT@);
        },
        Some(ContactStatus::Pending) => {
            let k = BADGE_PENDING_OPEN@.len() as int;
            assert(b.subrange(k, k + LABEL_PENDING@.len()) =~= LABEL_PENDING@);
        },
        Some(ContactStatus::Error) => {
            let k = BADGE_ERROR_OPEN@.len() as int;
            assert(b.subrange(k, k + LABEL_ERROR@.len()) =~= LABEL_ERROR@);
        },
        None => {},
    }
}

// ---------------------------------------------------------------------------
// Laws of the history document
// ---------------------------------------------------------------------------
/// A history contact with every field emptied but its notes' presence.
pub open spec fn blank_data(c: ContactDataView) -> ContactDataView {
    ContactDataView {
        societe: Seq::empty(),
        contact: Seq::empty(),
        email: Seq::empty(),
        telephone: Seq::empty(),
        notes: if c.notes.len() == 0 {
            Seq::empty()
        } else {
            seq![' ']
        },
        sectors: Seq::empty(),
        status: Seq::empty(),
        created_at: Seq::empty(),
    }
}

pub open spec fn blank_datas(cs: Seq<ContactDataView>) -> Seq<ContactDataView> {
    cs.map_values(|c: ContactDataView| blank_data(c))
}

proof fn lemma_card_markup(c: ContactDataView)
    ensures
        count_char(history_card(c), '<') == count_char(history_card(blank_data(c)), '<'),
{
    broadcast use lemma_count_concat;

    lemma_escape_has_no_angle(c.societe);
    lemma_escape_has_no_angle(c.created_at);
    lemma_escape_has_no_angle(c.contact);
    lemma_escape_has_no_angle(c.email);
    lemma_escape_has_no_angle(c.telephone);
    lemma_escape_has_no_angle(c.notes);
    lemma_escape_has_no_angle(seq![' ']);
    lemma_escape_has_no_angle(Seq::empty());
}

proof fn lemma_cards_markup(cs: Seq<ContactDataView>)
    ensures
        count_char(history_cards(cs), '<') == count_char(history_cards(blank_datas(cs)), '<'),
    decreases cs.len(),
{
    broadcast use lemma_count_concat;

    let b = blank_datas(cs);
    if cs.len() > 0 {
        assert(b.drop_last() =~= blank_datas(cs.drop_last()));
        lemma_cards_markup(cs.drop_last());
        lemma_card_markup(cs.last());
        if cs.len() == 1 {
            lemma_card_markup(cs[0]);
        }
    }
}

/// Contact text and the date label never add markup to the history
/// document: it holds exactly as many `<` as the document of the same number
/// of contacts with every field emptied (notes kept only as present or not)
/// and an empty date label.
pub proof fn lemma_history_text_adds_no_markup(cs: Seq<ContactDataView>, date: Seq<char>)
    ensures
        count_char(history_doc(cs, date), '<') == count_char(
            history_doc(blank_datas(cs), Seq::empty()),
            '<',
        ),
{
    broadcast use lemma_count_concat;

    lemma_cards_markup(cs);
    lemma_escape_has_no_angle(date);
    lemma_escape_has_no_angle(Seq::empty());
    assert(blank_datas(cs).len() == cs.len());
}

/// Relies on chrono's `Utc::now` and `DateTime::format`: the current UTC time,
/// written day/month/year and hour:minute. Nothing is promised of its value.
#[verifier::external_body]
pub(crate) fn now_label() -> (r: String) {
    chrono::Utc::now().format("%d/%m/%Y à %H:%M").to_string()
}

/// Generator of the email documents.
pub struct EmailTemplates;

impl EmailTemplates {
    /// The export document of `contacts`, dated now.
    pub fn export_fiches_html(contacts: &[ContactFiche]) -> (r: String)
        ensures
            exists|date: Seq<char>| r@ == export_doc(fiche_views(contacts@), date),
    {
        let date = now_label();
        Self::export_fiches_html_at(contacts, date.as_str())
    }

    /// The export document of `contacts`, dated `date`.
    pub fn export_fiches_html_at(contacts: &[ContactFiche], date: &str) -> (r: String)
        ensures
            r@ == export_doc(fiche_views(contacts@), date@),
    {
        let ghost cs = fiche_views(contacts@);
        let rows = Self::build_contact_rows(contacts);
        let pc = Self::count_photos(contacts);
        let mut out = String::from_str(EXPORT_HEAD);
        out.append(decimal_string(contacts.len()).as_str());
        out.append(EXPORT_COUNT_SUFFIX);
        out.append(EXPORT_DATE_OPEN);
        out.append(date);
        out.append(EXPORT_PHOTO_CELL);
        if pc > 0 {
            out.append(PHOTO_INFO_OPEN);
            out.append(decimal_string(pc).as_str());
            out.append(PHOTO_INFO_CLOSE);
        }
        proof {
            assert(out@ =~= EXPORT_HEAD@ + decimal(cs.len()) + EXPORT_COUNT_SUFFIX@
                + EXPORT_DATE_OPEN@ + date@ + EXPORT_PHOTO_CELL@ + photo_info(photo_count(cs)));
        }
        out.append(EXPORT_TABLE_OPEN);
        out.append(rows.as_str());
        out.append(EXPORT_TABLE_CLOSE);
        if pc > 0 {
            out.append(EXPORT_PHOTO_FOOTER);
        }
        out.append(EXPORT_TAIL);
        proof {
            assert(out@ =~= export_doc(cs, date@));
        }
        out
    }

    /// How many of `contacts` carry a photo.
    pub fn count_photos(contacts: &[ContactFiche]) -> (r: usize)
        ensures
            r == photo_count(fiche_views(contacts@)),
            r <= contacts@.len(),
    {
        let ghost cs = fiche_views(contacts@);
        let mut k: usize = 0;
        let mut i: usize = 0;
        while i < contacts.len()
            invariant
                i <= contacts@.len(),
                cs == fiche_views(contacts@),
                k == photo_count(cs.subrange(0, i as int)),
                k <= i,
            decreases contacts@.len() - i,
        {
            proof {
                assert(cs.subrange(0, i + 1).drop_last() =~= cs.subrange(0, i as int));
            }
            if contacts[i].has_photo() {
                k = k + 1;
            }
            i = i + 1;
        }
        proof {
            assert(cs.subrange(0, i as int) =~= cs);
        }
        k
    }

    /// The table rows of `contacts`, one per line.
    pub fn build_contact_rows(contacts: &[ContactFiche]) -> (r: String)
        ensures
            r@ == export_rows(fiche_views(contacts@)),
    {
        let ghost cs = fiche_views(contacts@);
        let mut out = String::new();
        let mut i: usize = 0;
        while i < contacts.len()
            invariant
                i <= contacts@.len(),
                cs == fiche_views(contacts@),
                out@ == export_rows(cs.subrange(0, i as int)),
            decreases contacts@.len() - i,
        {
            proof {
                assert(cs.subrange(0, i + 1).drop_last() =~= cs.subrange(0, i as int));
            }
            if i > 0 {
                out.append(ROW_SEPARATOR);
            }
            let row = Self::contact_row(i, &contacts[i]);
            out.append(row.as_str());
            proof {
                if i == 0 {
                    assert(out@ =~= export_row(0, cs.subrange(0, 1)[0]));
                }
            }
            i = i + 1;
        }
        proof {
            assert(cs.subrange(0, i as int) =~= cs);
        }
        out
    }

    /// The table row of `c`, shown at position `i`.
    pub fn contact_row(i: usize, c: &ContactFiche) -> (r: String)
        ensures
            r@ == export_row(i as nat, c@),
    {
        let mut out = String::from_str(ROW_OPEN);
        if i % 2 == 0 {
            out.append(ROW_BG_EVEN);
        } else {
            out.append(ROW_BG_ODD);
        }
        out.append(ROW_COMPANY);
        out.append(html_escape(c.societe.as_str()).as_str());
        out.append(ROW_CELL);
        out.append(html_escape(c.contact.as_str()).as_str());
        out.append(ROW_MAIL_OPEN);
        let email = html_escape(c.email.as_str());
        out.append(email.as_str());
        out.append(ROW_MAIL_TEXT);
        out.append(email.as_str());
        out.append(ROW_MAIL_CLOSE);
        out.append(html_escape(c.telephone.as_str()).as_str());
        out.append(ROW_SECTORS);
        out.append(html_escape(c.sectors.as_str()).as_str());
        out.append(ROW_NOTES);
        out.append(html_escape(c.notes.as_str()).as_str());
        out.append(ROW_STATUS);
        out.append(Self::status_badge(&c.status).as_str());
        if c.has_photo() {
            out.append(PHOTO_ICON);
        }
        out.append(ROW_CLOSE);
        out
    }

    /// The history document of `contacts`, labelled with `export_date`.
    pub fn history_email_html(contacts: &[ContactData], export_date: &str) -> (r: String)
        ensures
            r@ == history_doc(data_views(contacts@), export_date@),
    {
        let rows = Self::build_history_rows(contacts);
        let mut out = String::from_str(HISTORY_HEAD);
        out.append(html_escape(export_date).as_str());
        out.append(HISTORY_COUNT_OPEN);
        out.append(decimal_string(contacts.len()).as_str());
        out.append(HISTORY_LIST_OPEN);
        out.append(rows.as_str());
        out.append(HISTORY_TAIL);
        out
    }

    /// The history cards of `contacts`, one per line.
    pub fn build_history_rows(contacts: &[ContactData]) -> (r: String)
        ensures
            r@ == history_cards(data_views(contacts@)),
    {
        let ghost cs = data_views(contacts@);
        let mut out = String::new();
        let mut i: usize = 0;
        while i < contacts.len()
            invariant
                i <= contacts@.len(),
                cs == data_views(contacts@),
                out@ == history_cards(cs.subrange(0, i as int)),
            decreases contacts@.len() - i,
        {
            proof {
                assert(cs.subrange(0, i + 1).drop_last() =~= cs.subrange(0, i as int));
            }
            if i > 0 {
                out.append(ROW_SEPARATOR);
            }
            let card = Self::history_card(&contacts[i]);
            out.append(card.as_str());
            proof {
                if i == 0 {
                    assert(out@ =~= history_card(cs.subrange(0, 1)[0]));
                }
            }
            i = i + 1;
        }
        proof {
            assert(cs.subrange(0, i as int) =~= cs);
        }
        out
    }

    /// The card of one history contact.
    pub fn history_card(c: &ContactData) -> (r: String)
        ensures
            r@ == history_card(c@),
    {
        let mut out = String::from_str(CARD_OPEN);
        out.append(html_escape(c.societe.as_str()).as_str());
        out.append(CARD_DATE);
        out.append(html_escape(c.created_at.as_str()).as_str());
        out.append(CARD_CONTACT);
        out.append(html_escape(c.contact.as_str()).as_str());
        out.append(CARD_MAIL_OPEN);
        let email = html_escape(c.email.as_str());
        out.append(email.as_str());
        out.append(CARD_MAIL_TEXT);
        out.append(email.as_str());
        out.append(CARD_PHONE);
        out.append(html_escape(c.telephone.as_str()).as_str());
        out.append(CARD_NOTES);
        if c.notes.as_str().unicode_len() > 0 {
            out.append(NOTES_OPEN);
            out.append(html_escape(c.notes.as_str()).as_str());
            out.append(NOTES_CLOSE);
        }
        out.append(CARD_CLOSE);
        out
    }

    /// The badge of a delivery status.
    pub fn status_badge(status: &Option<ContactStatus>) -> (r: String)
        ensures
            r@ == badge_of(*status),
    {
        match status {
            Some(ContactStatus::Sent) => {
                let mut s = String::from_str(BADGE_SENT_OPEN);
                s.append(LABEL_SENT);
                s.append(BADGE_CLOSE);
                s
            },
            Some(ContactStatus::Pending) => {
                let mut s = String::from_str(BADGE_PENDING_OPEN);
                s.append(LABEL_PENDING);
                s.append(BADGE_CLOSE);
                s
            },
            Some(ContactStatus::Error) => {
                let mut s = String::from_str(BADGE_ERROR_OPEN);
                s.append(LABEL_ERROR);
                s.append(BADGE_CLOSE);
                s
            },
            None => String::new(),
        }
    }
}

} // verus!
