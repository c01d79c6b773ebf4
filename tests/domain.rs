use smp_backend::{
    decimal_string, sender_address, ApiResponse, ContactFiche, ContactStatus, EmailAttachment,
    ExportFichesResponse,
};

fn blank(societe: &str) -> ContactFiche {
    ContactFiche {
        societe: societe.to_string(),
        contact: "".to_string(),
        email: "".to_string(),
        telephone: "".to_string(),
        notes: "".to_string(),
        sectors: "".to_string(),
        status: None,
        created_at: 0,
        photo_base64: None,
        photo_filename: None,
    }
}

#[test]
fn test_safe_photo_filename() {
    let contact = blank("Test Company & Co.");
    let filename = contact.safe_photo_filename();
    assert!(filename.starts_with("carte_visite_"));
    assert!(!filename.contains('&'));
    assert!(!filename.contains(' '));
}

#[test]
fn safe_photo_filename_exact() {
    assert_eq!(blank("Test Company & Co.").safe_photo_filename(), "carte_visite_Test_Company___Co_.jpg");
    assert_eq!(blank("Société 42").safe_photo_filename(), "carte_visite_Société_42.jpg");
    assert_eq!(blank("").safe_photo_filename(), "carte_visite_.jpg");
    let mut c = blank("X");
    c.photo_filename = Some("card.png".to_string());
    assert_eq!(c.safe_photo_filename(), "card.png");
}

#[test]
fn has_photo_follows_payload() {
    let mut c = blank("X");
    assert!(!c.has_photo());
    c.photo_base64 = Some("QUJD".to_string());
    assert!(c.has_photo());
}

#[test]
fn status_defaults_to_pending() {
    assert_eq!(ContactStatus::default(), ContactStatus::Pending);
}

#[test]
fn jpeg_attachment() {
    let a = EmailAttachment::jpeg("a.jpg".to_string(), "QUJD".to_string());
    assert_eq!(a.filename, "a.jpg");
    assert_eq!(a.content_base64, "QUJD");
    assert_eq!(a.content_type, "image/jpeg");
}

#[test]
fn export_response_constructors() {
    let ok = ExportFichesResponse::success(3, "x@y.fr");
    assert!(ok.success);
    assert_eq!(ok.contacts_count, 3);
    assert_eq!(ok.message, "3 fiche(s) envoyée(s) avec succès à x@y.fr");
    let err = ExportFichesResponse::error("boom".to_string());
    assert!(!err.success);
    assert_eq!(err.contacts_count, 0);
    assert_eq!(err.message, "boom");
}

#[test]
fn api_response_constructors() {
    let ok = ApiResponse::success(7u32, "fait".to_string());
    assert!(ok.success);
    assert_eq!(ok.data, Some(7));
    assert_eq!(ok.message, "fait");
    let err: ApiResponse<u32> = ApiResponse::error("non".to_string());
    assert!(!err.success);
    assert_eq!(err.data, None);
    assert_eq!(err.message, "non");
}

#[test]
fn decimal_rendering() {
    assert_eq!(decimal_string(0), "0");
    assert_eq!(decimal_string(7), "7");
    assert_eq!(decimal_string(10), "10");
    assert_eq!(decimal_string(1234567890), "1234567890");
    assert_eq!(decimal_string(usize::MAX), usize::MAX.to_string());
}

#[test]
fn sender_address_format() {
    assert_eq!(sender_address("SMP Moules", "noreply@smp-moules.com"), "SMP Moules <noreply@smp-moules.com>");
}
