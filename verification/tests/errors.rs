use mux_errors::error::{
    discard_result, poisoned_lock_failure, termination_message, FatalError, LoggableError,
    ToAnyhow,
};
use mux_errors::record::{DiagnosticRecord, Level};
use std::cell::RefCell;
use std::sync::PoisonError;

fn disk_full<T>() -> Result<T, anyhow::Error> {
    Err(anyhow::Error::msg("disk full"))
}

// What comes after the chain in a rendering is the stack trace, which is
// there only when the process captures traces.
fn is_rendering_of_chain(text: &str, chain_text: &str) -> bool {
    text == chain_text
        || (text.starts_with(chain_text)
            && text[chain_text.len()..].starts_with("\n\nStack backtrace:"))
}

#[test]
fn fatal_returns_the_value_of_a_success() {
    let result: Result<i32, anyhow::Error> = Ok(42);
    assert_eq!(result.fatal(), 42);
}

#[test]
fn fatal_returns_a_value_that_is_not_copied() {
    let result: Result<String, anyhow::Error> = Ok("kept".to_string());
    assert_eq!(result.fatal(), "kept");
}

#[test]
fn termination_message_names_the_annotation_and_the_failure() {
    let message = termination_message(anyhow::Error::msg("disk full"));
    assert!(message.contains("a fatal error occured"));
    assert!(message.contains("disk full"));
    assert!(is_rendering_of_chain(
        &message,
        "Program terminates: a fatal error occured\n\nCaused by:\n    disk full"
    ));
}

#[test]
fn termination_message_numbers_the_causes_of_a_longer_chain() {
    let failure = anyhow::Error::msg("disk full").context("cannot save layout");
    let message = termination_message(failure);
    assert!(is_rendering_of_chain(
        &message,
        "Program terminates: a fatal error occured\n\nCaused by:\n    0: cannot save layout\n    1: disk full"
    ));
    assert!(message.contains("cannot save layout"));
    assert!(message.contains("disk full"));
}

#[test]
fn termination_message_indents_a_cause_of_several_lines() {
    let message = termination_message(anyhow::Error::msg("disk\nfull"));
    assert!(is_rendering_of_chain(
        &message,
        "Program terminates: a fatal error occured\n\nCaused by:\n    disk\n    full"
    ));
    assert!(!message.contains("disk\nfull"));
}

#[test]
fn termination_message_of_an_empty_failure() {
    let message = termination_message(anyhow::Error::msg(""));
    assert!(is_rendering_of_chain(
        &message,
        "Program terminates: a fatal error occured\n\nCaused by:\n    "
    ));
}

#[test]
fn non_fatal_drops_a_success_without_a_record() {
    let seen: RefCell<Vec<DiagnosticRecord>> = RefCell::new(Vec::new());
    let result: Result<i32, anyhow::Error> = Ok(42);
    result.non_fatal("src/pty.rs", 426, |record: &DiagnosticRecord| {
        seen.borrow_mut().push(record.clone())
    });
    assert!(seen.borrow().is_empty());
}

#[test]
fn non_fatal_logs_a_failure_once_and_returns() {
    let seen: RefCell<Vec<DiagnosticRecord>> = RefCell::new(Vec::new());
    disk_full::<i32>().non_fatal("src/pty.rs", 426, |record: &DiagnosticRecord| {
        seen.borrow_mut().push(record.clone())
    });
    let seen = seen.into_inner();
    assert_eq!(seen.len(), 1);
    assert_eq!(seen[0].level, Level::Error);
    assert_eq!(seen[0].file, "src/pty.rs");
    assert_eq!(seen[0].line, 426);
    assert_eq!(seen[0].module, None);
    assert!(seen[0].message.contains("a non-fatal error occured"));
    assert!(is_rendering_of_chain(
        &seen[0].message,
        "a non-fatal error occured\n\nCaused by:\n    disk full"
    ));
}

#[test]
fn non_fatal_keeps_the_whole_chain_of_a_failure() {
    let seen: RefCell<Vec<String>> = RefCell::new(Vec::new());
    let result: Result<(), anyhow::Error> =
        Err(anyhow::Error::msg("disk full").context("cannot save layout"));
    result.non_fatal("main.rs", 1, |record: &DiagnosticRecord| {
        seen.borrow_mut().push(record.message.clone())
    });
    let seen = seen.into_inner();
    assert_eq!(seen.len(), 1);
    assert!(is_rendering_of_chain(
        &seen[0],
        "a non-fatal error occured\n\nCaused by:\n    0: cannot save layout\n    1: disk full"
    ));
}

#[test]
fn print_error_leaves_a_success_alone() {
    let calls: RefCell<Vec<String>> = RefCell::new(Vec::new());
    let result: Result<i32, anyhow::Error> = Ok(7);
    let passed = result.print_error(|message: &str| calls.borrow_mut().push(message.to_string()));
    assert!(calls.borrow().is_empty());
    assert_eq!(passed.ok(), Some(7));
}

#[test]
fn print_error_shows_the_debug_rendering_once() {
    let calls: RefCell<Vec<String>> = RefCell::new(Vec::new());
    let passed =
        disk_full::<i32>().print_error(|message: &str| calls.borrow_mut().push(message.to_string()));
    let calls = calls.into_inner();
    let failure = passed.err().expect("the failure passes through");
    assert_eq!(calls.len(), 1);
    assert_eq!(calls[0], format!("{:?}", failure));
    assert!(is_rendering_of_chain(&calls[0], "disk full"));
    assert_eq!(failure.to_string(), "disk full");
}

#[test]
fn print_error_shows_the_causes_of_a_failure() {
    let calls: RefCell<Vec<String>> = RefCell::new(Vec::new());
    let result: Result<(), anyhow::Error> =
        Err(anyhow::Error::msg("disk full").context("cannot save layout"));
    let passed = result.print_error(|message: &str| calls.borrow_mut().push(message.to_string()));
    let calls = calls.into_inner();
    assert_eq!(calls.len(), 1);
    assert!(is_rendering_of_chain(
        &calls[0],
        "cannot save layout\n\nCaused by:\n    disk full"
    ));
    let failure = passed.err().expect("the failure passes through");
    let chain: Vec<String> = failure.chain().map(|cause| cause.to_string()).collect();
    assert_eq!(chain, vec!["cannot save layout".to_string(), "disk full".to_string()]);
}

#[test]
fn taps_chain_and_each_sink_is_called_once_in_order() {
    let calls: RefCell<Vec<String>> = RefCell::new(Vec::new());
    let passed = disk_full::<i32>()
        .print_error(|message: &str| calls.borrow_mut().push(format!("first: {}", message)))
        .print_error(|message: &str| calls.borrow_mut().push(format!("second: {}", message)));
    let calls = calls.into_inner();
    let failure = passed.err().expect("the failure passes through");
    assert_eq!(
        calls,
        vec![format!("first: {:?}", failure), format!("second: {:?}", failure)]
    );
    assert_eq!(failure.to_string(), "disk full");
}

#[test]
fn taps_chain_on_a_success_without_a_call() {
    let calls: RefCell<Vec<String>> = RefCell::new(Vec::new());
    let result: Result<&str, anyhow::Error> = Ok("fine");
    let passed = result
        .print_error(|message: &str| calls.borrow_mut().push(message.to_string()))
        .print_error(|message: &str| calls.borrow_mut().push(message.to_string()));
    assert!(calls.borrow().is_empty());
    assert_eq!(passed.ok(), Some("fine"));
}

#[test]
fn a_tap_can_stand_before_fatal() {
    let calls: RefCell<Vec<String>> = RefCell::new(Vec::new());
    let result: Result<i32, anyhow::Error> = Ok(42);
    let value = result
        .print_error(|message: &str| calls.borrow_mut().push(message.to_string()))
        .fatal();
    assert_eq!(value, 42);
    assert!(calls.borrow().is_empty());
}

#[test]
fn to_log_makes_no_record_of_a_success() {
    let seen: RefCell<Vec<DiagnosticRecord>> = RefCell::new(Vec::new());
    let result: Result<i32, anyhow::Error> = Ok(3);
    let passed = result.to_log("src/main.rs", 9, |record: &DiagnosticRecord| {
        seen.borrow_mut().push(record.clone())
    });
    assert!(seen.borrow().is_empty());
    assert_eq!(passed.ok(), Some(3));
}

#[test]
fn to_log_makes_one_record_of_a_failure_and_passes_it_on() {
    let seen: RefCell<Vec<DiagnosticRecord>> = RefCell::new(Vec::new());
    let passed = disk_full::<i32>().to_log("src/main.rs", 9, |record: &DiagnosticRecord| {
        seen.borrow_mut().push(record.clone())
    });
    let seen = seen.into_inner();
    let failure = passed.err().expect("the failure passes through");
    assert_eq!(
        seen,
        vec![DiagnosticRecord {
            level: Level::Error,
            message: format!("{:?}", failure),
            file: "src/main.rs".to_string(),
            line: 9,
            module: None,
        }]
    );
    assert!(is_rendering_of_chain(&seen[0].message, "disk full"));
}

#[test]
fn to_log_takes_the_largest_line_number() {
    let seen: RefCell<Vec<u32>> = RefCell::new(Vec::new());
    let passed = disk_full::<()>().to_log("", u32::MAX, |record: &DiagnosticRecord| {
        seen.borrow_mut().push(record.line)
    });
    assert!(passed.is_err());
    assert_eq!(seen.into_inner(), vec![u32::MAX]);
}

#[test]
fn to_anyhow_passes_a_success_through() {
    let result: Result<i32, PoisonError<i32>> = Ok(5);
    assert_eq!(result.to_anyhow().ok(), Some(5));
}

#[test]
fn to_anyhow_describes_what_the_poisoned_lock_protected() {
    let result: Result<i32, PoisonError<i32>> = Err(PoisonError::new(5));
    let failure = result.to_anyhow().err().expect("a poisoned lock is a failure");
    assert_eq!(failure.to_string(), "cannot acquire poisoned lock for 5");
    assert_eq!(failure.chain().count(), 1);
}

#[test]
fn to_anyhow_uses_the_pretty_debug_form() {
    let result: Result<Vec<u8>, PoisonError<Vec<u8>>> = Err(PoisonError::new(vec![1, 2]));
    let failure = result.to_anyhow().err().expect("a poisoned lock is a failure");
    assert_eq!(
        failure.to_string(),
        format!("cannot acquire poisoned lock for {:#?}", vec![1u8, 2u8])
    );
    assert_eq!(
        failure.to_string(),
        "cannot acquire poisoned lock for [\n    1,\n    2,\n]"
    );
}

#[test]
fn to_anyhow_quotes_a_protected_string() {
    let result: Result<String, PoisonError<String>> = Err(PoisonError::new("state".to_string()));
    let failure = result.to_anyhow().err().expect("a poisoned lock is a failure");
    assert_eq!(failure.to_string(), "cannot acquire poisoned lock for \"state\"");
}

#[test]
fn a_poisoned_lock_can_be_disposed_of_like_any_failure() {
    let seen: RefCell<Vec<String>> = RefCell::new(Vec::new());
    let result: Result<i32, PoisonError<i32>> = Err(PoisonError::new(5));
    result.to_anyhow().non_fatal("lock.rs", 12, |record: &DiagnosticRecord| {
        seen.borrow_mut().push(record.message.clone())
    });
    let seen = seen.into_inner();
    assert_eq!(seen.len(), 1);
    assert!(is_rendering_of_chain(
        &seen[0],
        "a non-fatal error occured\n\nCaused by:\n    cannot acquire poisoned lock for 5"
    ));
}

#[test]
fn poisoned_lock_failure_has_the_message_and_no_cause() {
    let failure = poisoned_lock_failure("Screen { panes: 2 }");
    assert_eq!(
        failure.to_string(),
        "cannot acquire poisoned lock for Screen { panes: 2 }"
    );
    assert_eq!(failure.chain().count(), 1);
    assert_eq!(
        poisoned_lock_failure("").to_string(),
        "cannot acquire poisoned lock for "
    );
}

#[test]
fn discard_result_takes_either_outcome() {
    discard_result::<i32>(Ok(1));
    discard_result(disk_full::<i32>());
}
