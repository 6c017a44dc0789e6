use backend::models::{
    submit_message, ArchiveAction, ContactMessage, ContactMessageForm, Message,
};
use backend::time::Timestamp;
use chrono::NaiveDateTime;

#[test]
fn test_contact_message_form_is_bot() {
    // Test bot detection with company field filled
    let bot_form = ContactMessageForm {
        company: Some("spam".to_string()),
        name: "Spam Bot".to_string(),
        email: "bot@spam.com".to_string(),
        phone: None,
        subject: None,
        message: "Spam message".to_string(),
    };
    assert!(bot_form.is_bot());

    // Test legitimate submission
    let legit_form = ContactMessageForm {
        company: None,
        name: "John Doe".to_string(),
        email: "john@example.com".to_string(),
        phone: None,
        subject: Some("Test".to_string()),
        message: "Hello, this is a test".to_string(),
    };
    assert!(!legit_form.is_bot());

    // Test with empty company field
    let empty_company = ContactMessageForm {
        company: Some("".to_string()),
        name: "Jane Doe".to_string(),
        email: "jane@example.com".to_string(),
        phone: None,
        subject: None,
        message: "Another test".to_string(),
    };
    assert!(!empty_company.is_bot());
}

#[test]
fn test_contact_message_from_form() {
    let form = ContactMessageForm {
        company: None,
        name: "Alice".to_string(),
        email: "alice@example.com".to_string(),
        phone: Some("123-456-7890".to_string()),
        subject: Some("Question".to_string()),
        message: "I have a question about your services".to_string(),
    };

    let contact = ContactMessage::from(form.clone());

    assert_eq!(contact.id, None);
    assert_eq!(contact.name, form.name);
    assert_eq!(contact.email, form.email);
    assert_eq!(contact.phone, form.phone);
    assert_eq!(contact.subject, form.subject);
    assert_eq!(contact.message, form.message);
}

#[test]
fn test_message_into_archived() {
    let created_at = NaiveDateTime::parse_from_str("2024-01-01 12:00:00", "%Y-%m-%d %H:%M:%S")
        .expect("Failed to parse datetime");
    let created_at = Timestamp::new(
        created_at.and_utc().timestamp(),
        created_at.and_utc().timestamp_subsec_nanos(),
    );

    let message = Message {
        id: 123,
        name: "Bob".to_string(),
        email: "bob@example.com".to_string(),
        phone: None,
        subject: Some("Inquiry".to_string()),
        message: "Interested in your product".to_string(),
        created_at,
    };

    let archived = message.clone().into_archived();

    assert_eq!(archived.original_id, message.id);
    assert_eq!(archived.name, message.name);
    assert_eq!(archived.email, message.email);
    assert_eq!(archived.phone, message.phone);
    assert_eq!(archived.subject, message.subject);
    assert_eq!(archived.message, message.message);
    assert_eq!(archived.created_at, message.created_at);
    assert_eq!(archived.created_at.secs, 1_704_110_400);
}

#[test]
fn archived_row_restores_to_the_same_message() {
    let message = Message {
        id: 5,
        name: "Bob".to_string(),
        email: "bob@example.com".to_string(),
        phone: Some("1".to_string()),
        subject: None,
        message: "Hi".to_string(),
        created_at: Timestamp::new(100, 7),
    };
    let row = message.clone().into_archived().into_row(9, Timestamp::new(200, 0));
    assert_eq!(row.id, 9);
    assert_eq!(row.original_id, 5);
    assert_eq!(row.archived_at, Timestamp::new(200, 0));
    assert_eq!(row.created_at, Timestamp::new(100, 7));
    assert_eq!(row.into_restored(), message);
}

#[test]
fn archive_action_is_named_exactly() {
    assert_eq!(ArchiveAction::parse("archive"), Some(ArchiveAction::Archive));
    assert_eq!(ArchiveAction::parse("restore"), Some(ArchiveAction::Restore));
    assert_eq!(ArchiveAction::parse("Archive"), None);
    assert_eq!(ArchiveAction::parse("delete"), None);
    assert_eq!(ArchiveAction::parse(""), None);
    assert_eq!(ArchiveAction::parse("archive "), None);
}

#[test]
fn submission_of_a_program_is_dropped() {
    let form = ContactMessageForm {
        company: Some("x".to_string()),
        name: "n".to_string(),
        email: "e@x.yz".to_string(),
        phone: None,
        subject: None,
        message: "m".to_string(),
    };
    assert_eq!(submit_message(form.clone()), None);
    let person = ContactMessageForm { company: None, ..form };
    let stored = submit_message(person).expect("a person's message is stored");
    assert_eq!(stored.id, None);
    assert_eq!(stored.name, "n");
    assert_eq!(stored.email, "e@x.yz");
    assert_eq!(stored.message, "m");
}
