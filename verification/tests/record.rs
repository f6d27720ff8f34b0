use mux_errors::record::{DiagnosticRecord, Level};

#[test]
fn an_error_record_has_the_level_error_and_no_module() {
    let record = DiagnosticRecord::error("disk full", "src/pty.rs", 426);
    assert_eq!(record.level, Level::Error);
    assert_eq!(record.message, "disk full");
    assert_eq!(record.file, "src/pty.rs");
    assert_eq!(record.line, 426);
    assert_eq!(record.module, None);
}

#[test]
fn an_error_record_keeps_a_message_of_several_lines() {
    let record = DiagnosticRecord::error("one\n\nCaused by:\n    two", "", 0);
    assert_eq!(record.message, "one\n\nCaused by:\n    two");
    assert_eq!(record.file, "");
    assert_eq!(record.line, 0);
}

#[test]
fn records_made_of_the_same_values_are_equal() {
    let one = DiagnosticRecord::error("disk full", "a.rs", 1);
    let other = DiagnosticRecord::error("disk full", "a.rs", 1);
    assert_eq!(one, other);
    assert_ne!(one, DiagnosticRecord::error("disk full", "a.rs", 2));
    assert_eq!(one.clone(), one);
}
