//! The record that a failure leaves in the log.

use vstd::prelude::*;

verus! {

/// How severe a record is, from the gravest to the most detailed.
#[derive(Clone, Copy, Debug, PartialEq, Eq, Structural)]
pub enum Level {
    Error,
    Warn,
    Info,
    Debug,
    Trace,
}

/// A log entry: made when a failure is logged, handed to the log sink and
/// then dropped.
#[derive(Clone, Debug, PartialEq, Eq)]
pub struct DiagnosticRecord {
    pub level: Level,
    pub message: String,
    pub file: String,
    pub line: u32,
    pub module: Option<String>,
}

/// A record as plain values.
pub struct RecordView {
    pub level: Level,
    pub message: Seq<char>,
    pub file: Seq<char>,
    pub line: u32,
    pub module: Option<Seq<char>>,
}

impl View for DiagnosticRecord {
    type V = RecordView;

    open spec fn view(&self) -> RecordView {
        RecordView {
            level: self.level,
            message: self.message@,
            file: self.file@,
            line: self.line,
            module: match self.module {
                Some(path) => Some(path@),
                None => None,
            },
        }
    }
}

/// The record of a failure that was seen at a line of a source file: its
/// level is `Error`, and it names no module, since the module of the place
/// that logs is not known when the record is made.
pub open spec fn error_record(message: Seq<char>, file: Seq<char>, line: u32) -> RecordView {
    RecordView { level: Level::Error, message, file, line, module: None }
}

impl DiagnosticRecord {
    /// Makes the record of a failure from its rendering and the place where
    /// it was logged.
    pub fn error(message: &str, file: &str, line: u32) -> (record: DiagnosticRecord)
        ensures
            record@ == error_record(message@, file@, line),
    {
        DiagnosticRecord {
            level: Level::Error,
            message: message.to_owned(),
            file: file.to_owned(),
            line,
            module: None,
        }
    }
}

} // verus!
