use transport_session::event_log::{EventLogEntry, Logger, Severity};

#[test]
fn class_name_follows_severity() {
    assert_eq!(Severity::Info.class_name(), "log-info");
    assert_eq!(Severity::Error.class_name(), "log-error");
}

#[test]
fn logger_starts_empty() {
    let logger = Logger::new();
    assert!(logger.entries().is_empty());
}

#[test]
fn logger_appends_in_call_order() {
    let mut logger = Logger::new();
    logger.add_to_event_log("first");
    logger.add_to_event_log_error("second");
    logger.add_to_event_log_with_severity("third", Severity::Info);
    logger.add_to_event_log_with_severity("fourth", Severity::Error);
    assert_eq!(
        logger.entries(),
        &vec![
            EventLogEntry { message: "first".to_string(), severity: Severity::Info },
            EventLogEntry { message: "second".to_string(), severity: Severity::Error },
            EventLogEntry { message: "third".to_string(), severity: Severity::Info },
            EventLogEntry { message: "fourth".to_string(), severity: Severity::Error },
        ]
    );
}

#[test]
fn logger_keeps_empty_and_non_ascii_text() {
    let mut logger = Logger::new();
    logger.add_to_event_log("");
    logger.add_to_event_log("gr\u{fc}\u{df}e \u{1f980}");
    assert_eq!(logger.entries()[0].message, "");
    assert_eq!(logger.entries()[1].message, "gr\u{fc}\u{df}e \u{1f980}");
}
