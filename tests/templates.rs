use smp_backend::{html_escape, ContactData, ContactFiche, ContactStatus, EmailTemplates};

fn fiche(societe: &str, status: Option<ContactStatus>, photo: Option<&str>) -> ContactFiche {
    ContactFiche {
        societe: societe.to_string(),
        contact: "John".to_string(),
        email: "john@test.com".to_string(),
        telephone: "0123456789".to_string(),
        notes: "Notes".to_string(),
        sectors: "PHARMA".to_string(),
        status,
        created_at: 1704067200000,
        photo_base64: photo.map(|p| p.to_string()),
        photo_filename: None,
    }
}

fn data(notes: &str) -> ContactData {
    ContactData {
        societe: "ACME <b>".to_string(),
        contact: "Jane".to_string(),
        email: "jane@acme.com".to_string(),
        telephone: "0600000000".to_string(),
        notes: notes.to_string(),
        sectors: "AUTO".to_string(),
        status: "sent".to_string(),
        created_at: "01/01/2024".to_string(),
    }
}

#[test]
fn test_html_escape() {
    assert_eq!(html_escape("<script>"), "&lt;script&gt;");
    assert_eq!(html_escape("a & b"), "a &amp; b");
}

#[test]
fn html_escape_quotes_and_plain_text() {
    assert_eq!(html_escape("\"x\" 'y'"), "&quot;x&quot; &#39;y&#39;");
    assert_eq!(html_escape("héllo"), "héllo");
    assert_eq!(html_escape(""), "");
}

#[test]
fn test_export_html_not_empty() {
    let contacts = vec![fiche("Test", Some(ContactStatus::Sent), None)];
    let html = EmailTemplates::export_fiches_html(&contacts);
    assert!(html.contains("Test"));
    assert!(html.contains("john@test.com"));
    assert!(html.contains("1 fiche(s)"));
}

#[test]
fn test_email_construction() {
    let mut c = fiche("Test Corp", None, None);
    c.contact = "John Doe".to_string();
    c.notes = "Test notes".to_string();
    let contacts = vec![c];
    let html = EmailTemplates::export_fiches_html(&contacts);
    assert!(html.contains("Test Corp"));
    assert!(html.contains("john@test.com"));
}

#[test]
fn test_status_badges() {
    assert!(EmailTemplates::status_badge(&Some(ContactStatus::Sent)).contains("Envoyé"));
    assert!(EmailTemplates::status_badge(&Some(ContactStatus::Pending)).contains("En attente"));
    assert!(EmailTemplates::status_badge(&None).is_empty());
}

#[test]
fn status_badge_error_and_colours() {
    let e = EmailTemplates::status_badge(&Some(ContactStatus::Error));
    assert!(e.contains("Erreur"));
    assert!(e.contains("#f44336"));
    assert!(EmailTemplates::status_badge(&Some(ContactStatus::Sent)).contains("#4CAF50"));
    assert!(EmailTemplates::status_badge(&Some(ContactStatus::Pending)).contains("#FF9800"));
}

#[test]
fn export_escapes_script_in_every_contact() {
    let mut contacts = Vec::new();
    for i in 0..3 {
        let mut c = fiche("<script>alert(1)</script>", None, None);
        c.notes = format!("<script>n{}</script>", i);
        c.contact = "O'Brien & \"Co\"".to_string();
        contacts.push(c);
    }
    let html = EmailTemplates::export_fiches_html_at(&contacts, "01/01/2024 à 10:00");
    assert!(!html.contains("<script>"));
    assert!(html.contains("&lt;script&gt;alert(1)&lt;/script&gt;"));
    assert!(html.contains("O&#39;Brien &amp; &quot;Co&quot;"));
    assert!(html.contains("3 fiche(s)"));
    assert_eq!(html.matches("<tr style=\"background:#f").count(), 3);
}

#[test]
fn export_of_no_contacts() {
    let html = EmailTemplates::export_fiches_html_at(&[], "01/01/2024 à 10:00");
    assert!(html.starts_with("<!DOCTYPE html>"));
    assert!(html.ends_with("</html>"));
    assert!(html.contains("0 fiche(s)"));
    assert!(!html.contains("<tr style=\"background:#f"));
    assert!(!html.contains("photo(s) jointe(s)"));
    assert_eq!(EmailTemplates::build_contact_rows(&[]), "");
}

#[test]
fn export_rows_alternate_and_mark_photos() {
    let contacts = vec![
        fiche("A", None, Some("QUJD")),
        fiche("B", Some(ContactStatus::Pending), None),
    ];
    let rows = EmailTemplates::build_contact_rows(&contacts);
    let lines: Vec<&str> = rows.split("<tr ").collect();
    assert_eq!(lines.len(), 3);
    assert!(lines[1].contains("#ffffff"));
    assert!(lines[1].contains(" 📷"));
    assert!(lines[2].contains("#f9f9f9"));
    assert!(!lines[2].contains("📷"));
    assert!(lines[2].contains("En attente"));
    assert!(rows.contains("<a href=\"mailto:john@test.com\""));
}

#[test]
fn export_reports_photo_count_and_date() {
    let contacts = vec![
        fiche("A", None, Some("QUJD")),
        fiche("B", None, Some("REVG")),
        fiche("C", None, None),
    ];
    assert_eq!(EmailTemplates::count_photos(&contacts), 2);
    let html = EmailTemplates::export_fiches_html_at(&contacts, "02/03/2024 à 11:12");
    assert!(html.contains("📷 2 photo(s) jointe(s)"));
    assert!(html.contains("<strong>02/03/2024 à 11:12</strong>"));
    assert!(html.contains("disponibles en pièces jointes"));
}

#[test]
fn history_cards_escape_and_omit_empty_notes() {
    let contacts = vec![data("Rappeler <vite>"), data("")];
    let html = EmailTemplates::history_email_html(&contacts, "<01/01/2024>");
    assert!(html.contains("Export du <strong>&lt;01/01/2024&gt;</strong>"));
    assert!(html.contains("<strong>2</strong> contact(s)"));
    assert!(html.contains("ACME &lt;b&gt;"));
    assert!(!html.contains("ACME <b>"));
    assert!(html.contains("📝 Rappeler &lt;vite&gt;"));
    assert_eq!(html.matches("📝").count(), 1);
    assert!(html.contains("<a href=\"mailto:jane@acme.com\""));
    assert!(html.contains("👤 Jane"));
    assert!(html.contains("📞 0600000000"));
}

#[test]
fn history_card_single() {
    let card = EmailTemplates::history_card(&data(""));
    assert!(card.starts_with("<div style=\"border:1px solid #eee;"));
    assert!(card.ends_with("</div>"));
    assert!(card.contains("01/01/2024"));
    assert!(!card.contains("📝"));
    assert_eq!(EmailTemplates::build_history_rows(&[data("x"), data("y")]).matches("<div style=\"border").count(), 2);
}
