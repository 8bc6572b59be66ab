use lana_core::document::{
    sanitize_filename, Document, DocumentStatus, DocumentType, NewDocument,
};
use lana_core::primitives::EntityId;

fn new_document(filename: &str) -> NewDocument {
    NewDocument::builder()
        .id(EntityId::new())
        .document_type(DocumentType { name: "loan_agreement".to_string() })
        .filename(filename.to_string())
        .content_type("application/pdf".to_string())
        .path_in_storage("documents/x.pdf".to_string())
        .storage_identifier("bucket".to_string())
        .reference_id(EntityId::new())
        .build()
        .unwrap()
}

#[test]
fn file_names_are_sanitized() {
    assert_eq!(sanitize_filename("  my report.pdf  "), "my-report-pdf");
    assert_eq!(sanitize_filename("a-b_c"), "a-b-c");
    assert_eq!(sanitize_filename("Été 2024"), "Été-2024");
    assert_eq!(sanitize_filename("   "), "");
    let new = new_document(" weird/name?.txt");
    assert_eq!(new.sanitized_filename, "weird-name--txt");
    assert_eq!(new.filename, " weird/name?.txt");
}

#[test]
fn document_lifecycle_commands_are_idempotent() {
    let mut document = Document::try_from_events(new_document("a.pdf").into_events()).unwrap();
    assert_eq!(document.status, DocumentStatus::New);
    assert_eq!(document.filename, "a-pdf");
    assert!(document.upload_file().did_execute());
    assert!(document.upload_file().was_ignored());
    assert_eq!(document.download_link_generated(), "documents/x.pdf");
    assert!(document.archive().did_execute());
    assert_eq!(document.status, DocumentStatus::Archived);
    assert!(document.archive().was_ignored());
    assert!(document.delete().did_execute());
    assert_eq!(document.status, DocumentStatus::Deleted);
    assert!(document.delete().was_ignored());
}

#[test]
fn replayed_document_takes_the_status_of_its_events() {
    let mut document = Document::try_from_events(new_document("a.pdf").into_events()).unwrap();
    document.upload_file();
    let events = std::mem::take(&mut document.events);
    let replayed = Document::try_from_events(events).unwrap();
    assert_eq!(replayed.status, DocumentStatus::Active);

    let mut failed = Document::try_from_events(new_document("b.pdf").into_events()).unwrap();
    failed.upload_failed("timeout".to_string());
    let events = std::mem::take(&mut failed.events);
    assert_eq!(Document::try_from_events(events).unwrap().status, DocumentStatus::Failed);
}

#[test]
fn document_builder_requires_every_field() {
    let missing = NewDocument::builder().id(EntityId::new()).build();
    assert!(missing.is_err());
}

#[test]
fn document_text_names_its_id() {
    let document = Document::try_from_events(new_document("a.pdf").into_events()).unwrap();
    let expected = format!("Document: {}", uuid::Uuid::from_u128(document.id.bits).hyphenated());
    assert_eq!(document.to_string(), expected);
}
