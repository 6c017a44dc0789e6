use backend::config::{
    default_rocket_address, default_rocket_port, default_static_dir, AppConfig, ConfigSource,
};
use backend::error::AppError;
use backend::models::Message;
use backend::pagination::{get_archived_messages, get_messages, page_window, PageWindow};
use backend::text::{chars_of, same_text, tail_is, to_lower};
use backend::time::Timestamp;

#[test]
fn page_window_defaults_and_offsets() {
    assert_eq!(page_window(None, None), Some(PageWindow { page: 1, limit: 10, offset: 0 }));
    assert_eq!(page_window(Some(3), None), Some(PageWindow { page: 3, limit: 10, offset: 20 }));
    assert_eq!(page_window(Some(2), Some(25)), Some(PageWindow { page: 2, limit: 25, offset: 25 }));
    assert_eq!(page_window(Some(0), Some(5)), Some(PageWindow { page: 0, limit: 5, offset: -5 }));
    assert_eq!(page_window(Some(i64::MIN), None), None);
    assert_eq!(page_window(Some(i64::MAX), Some(2)), None);
    assert_eq!(
        page_window(Some(i64::MAX), Some(1)),
        Some(PageWindow { page: i64::MAX, limit: 1, offset: i64::MAX - 1 })
    );
}

#[test]
fn listing_is_for_admins_only() {
    let window = page_window(Some(2), Some(1)).unwrap();
    let row = Message {
        id: 1,
        name: "n".to_string(),
        email: "e".to_string(),
        phone: None,
        subject: None,
        message: "m".to_string(),
        created_at: Timestamp::new(1, 0),
    };
    let page = get_messages(true, vec![row.clone()], 2, window).unwrap();
    assert_eq!(page.data, vec![row.clone()]);
    assert_eq!((page.total, page.page, page.limit), (2, 2, 1));
    assert_eq!(get_messages(false, vec![row], 2, window), Err(AppError::Unauthorized));
    let archived = get_archived_messages(true, Vec::new(), 0, window).unwrap();
    assert_eq!((archived.total, archived.page, archived.limit), (0, 2, 1));
    assert_eq!(get_archived_messages(false, Vec::new(), 0, window), Err(AppError::Unauthorized));
}

#[test]
fn config_needs_url_and_hash_and_fills_in_the_rest() {
    let source = ConfigSource {
        database_url: Some("mysql://db".to_string()),
        admin_password_hash: Some("$2b$".to_string()),
        rocket_port: None,
        rocket_address: None,
        static_dir: None,
    };
    assert!(source.is_complete());
    let config = AppConfig::load(source.clone());
    assert_eq!(config.database_url, "mysql://db");
    assert_eq!(config.admin_password_hash, "$2b$");
    assert_eq!(config.rocket_port, 8080);
    assert_eq!(config.rocket_address, "0.0.0.0");
    assert_eq!(config.static_dir, "/app/static");
    assert_eq!(default_rocket_port(), 8080);
    assert_eq!(default_rocket_address(), "0.0.0.0");
    assert_eq!(default_static_dir(), "/app/static");

    let full = ConfigSource {
        rocket_port: Some(9000),
        rocket_address: Some("127.0.0.1".to_string()),
        static_dir: Some("/srv".to_string()),
        ..source.clone()
    };
    let config = AppConfig::load(full);
    assert_eq!(config.rocket_port, 9000);
    assert_eq!(config.rocket_address, "127.0.0.1");
    assert_eq!(config.static_dir, "/srv");

    assert!(!ConfigSource { database_url: None, ..source.clone() }.is_complete());
    assert!(!ConfigSource { admin_password_hash: None, ..source }.is_complete());
}

#[test]
fn errors_have_a_status_and_a_text() {
    let all = [
        (AppError::Database("x".to_string()), 500, true, "Database error: x"),
        (AppError::DatabasePool("y".to_string()), 500, true, "Database pool error: y"),
        (AppError::InvalidInput("z".to_string()), 400, false, "Invalid input: z"),
        (AppError::Unauthorized, 401, false, "Unauthorized"),
        (AppError::NotFound, 404, false, "Resource not found"),
        (AppError::UnsupportedMediaType, 415, false, "Unsupported media type"),
        (AppError::Conflict, 409, false, "Conflict"),
        (AppError::Io("w".to_string()), 500, true, "IO error: w"),
    ];
    for (error, status, logged, text) in all {
        assert_eq!(error.status(), status);
        assert_eq!(error.should_log_as_error(), logged);
        assert_eq!(error.message(), text);
    }
}

#[test]
fn text_helpers() {
    assert_eq!(chars_of("a\u{e9}z"), vec!['a', '\u{e9}', 'z']);
    assert!(chars_of("").is_empty());
    assert!(same_text("abc", "abc"));
    assert!(!same_text("abc", "abd"));
    assert!(!same_text("abc", "ab"));
    assert!(same_text("", ""));
    assert_eq!(to_lower('A'), 'a');
    assert_eq!(to_lower('Z'), 'z');
    assert_eq!(to_lower('a'), 'a');
    assert_eq!(to_lower('['), '[');
    assert_eq!(to_lower('\u{c9}'), '\u{c9}');
    let v = chars_of("photo.PnG");
    assert!(tail_is(&v, 6, "png"));
    assert!(!tail_is(&v, 5, "png"));
    assert!(!tail_is(&v, 6, "PNG"));
    assert!(tail_is(&v, 9, ""));
}

#[test]
fn caller_is_not_sent_the_detail_of_a_server_fault() {
    for error in [
        AppError::Database("table admin_sessions is gone".to_string()),
        AppError::DatabasePool("pool timed out".to_string()),
        AppError::Io("disk full".to_string()),
    ] {
        assert_eq!(error.response_text(), "Internal server error");
        assert_ne!(error.response_text(), error.message());
    }
    for (error, text) in [
        (AppError::InvalidInput("Invalid archive action".to_string()), "Invalid input: Invalid archive action"),
        (AppError::Unauthorized, "Unauthorized"),
        (AppError::NotFound, "Resource not found"),
        (AppError::UnsupportedMediaType, "Unsupported media type"),
        (AppError::Conflict, "Conflict"),
    ] {
        assert_eq!(error.response_text(), text);
        assert_eq!(error.response_text(), error.message());
    }
}
