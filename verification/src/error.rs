//! What to do with a failure: log it and go on, or stop.
//!
//! A failure is not fatal or harmless in itself: the place that sees it
//! decides, by calling `fatal` or `non_fatal` on the result. Before that the
//! result can pass through any number of taps, which show a failure to a
//! sink and hand the result on unchanged.

use std::fmt::Debug;
use std::sync::PoisonError;
use vstd::prelude::*;
use vstd::string::*;
use crate::failure::{
    annotate, debug_text, describe, failure_chain, failure_from_message, failure_rendering,
    failure_trace, render, shows_chain,
};
use crate::record::{error_record, DiagnosticRecord, RecordView};
use crate::text::{lemma_occurs_after, lemma_prefix_occurs, occurs_in, single_line};

verus! {

/// The annotation that `fatal` puts in front of a failure. The last word
/// has a single `r`: that is how the message reads, and what a search of the
/// output has to look for.
pub open spec fn fatal_annotation() -> Seq<char> {
    "a fatal error occured"@
}

/// The annotation that `non_fatal` puts in front of a failure, spelt like
/// the fatal one.
pub open spec fn non_fatal_annotation() -> Seq<char> {
    "a non-fatal error occured"@
}

/// The words with which the message of a fatal failure begins.
pub open spec fn termination_label() -> Seq<char> {
    "Program terminates: "@
}

/// The message of the failure that stands for a poisoned lock, given the
/// description of what the lock protected.
pub open spec fn poisoned_lock_message(description: Seq<char>) -> Seq<char> {
    "cannot acquire poisoned lock for "@ + description
}

/// The rendering of a failure once an annotation has been put in front of
/// its chain.
pub open spec fn annotated_rendering(annotation: Seq<char>, failure: anyhow::Error) -> Seq<char> {
    debug_text(seq![annotation] + failure_chain(failure), failure_trace(failure))
}

/// Whether a text tells of a failure that was annotated: the annotation
/// stands in it, and so does every message of the failure's chain that fits
/// on one line. A message of several lines is broken up by the indentation
/// of the rendering and need not stand in it as it is.
pub open spec fn tells_of(text: Seq<char>, annotation: Seq<char>, failure: anyhow::Error) -> bool {
    &&& occurs_in(annotation, text)
    &&& forall|i: int|
        0 <= i < failure_chain(failure).len() && single_line(#[trigger] failure_chain(failure)[i])
            ==> occurs_in(failure_chain(failure)[i], text)
}

/// A rendering that shows the chain of an annotated failure tells of that
/// failure, also when a label is put in front of it.
proof fn lemma_rendering_tells(
    label: Seq<char>,
    rendering: Seq<char>,
    annotation: Seq<char>,
    failure: anyhow::Error,
)
    requires
        shows_chain(seq![annotation] + failure_chain(failure), rendering),
    ensures
        tells_of(label + rendering, annotation, failure),
{
    let chain = failure_chain(failure);
    let shown = seq![annotation] + chain;
    assert(shown[0] == annotation);
    lemma_prefix_occurs(annotation, rendering);
    lemma_occurs_after(annotation, label, rendering);
    assert forall|i: int| 0 <= i < chain.len() && single_line(#[trigger] chain[i]) implies occurs_in(
        chain[i],
        label + rendering,
    ) by {
        assert(shown[i + 1] == chain[i]);
        lemma_occurs_after(chain[i], label, rendering);
    }
}

/// What a tap hands to its sink: the rendering of the failure, and nothing
/// where there is no failure.
pub open spec fn diagnostic(failure: Option<anyhow::Error>) -> Option<Seq<char>> {
    match failure {
        Some(failure) => Some(failure_rendering(failure)),
        None => None,
    }
}

/// The log entry for a diagnostic that was seen at `line` of `file`: none
/// where there is no diagnostic.
pub open spec fn log_entry(diagnostic: Option<Seq<char>>, file: Seq<char>, line: u32) -> Option<
    RecordView,
> {
    match diagnostic {
        Some(text) => Some(error_record(text, file, line)),
        None => None,
    }
}

/// The log entry that `non_fatal` makes of a result that was seen at `line`
/// of `file`: for a failure, the record of its rendering once it has been
/// annotated as non-fatal; for a success, none.
pub open spec fn non_fatal_entry<T>(
    outcome: Result<T, anyhow::Error>,
    file: Seq<char>,
    line: u32,
) -> Option<RecordView> {
    match outcome {
        Ok(_) => None,
        Err(failure) => Some(
            error_record(annotated_rendering(non_fatal_annotation(), failure), file, line),
        ),
    }
}

/// Turns the failure of a poisoned lock, which carries the protected value
/// and no message, into an ordinary failure.
pub trait ToAnyhow<U> {
    /// The value of a success: none where the lock was poisoned.
    spec fn unpoisoned(&self) -> Option<U>;

    /// A success passes through. A poisoned lock becomes a failure without a
    /// cause whose message says so and describes the protected value.
    fn to_anyhow(self) -> (converted: Result<U, anyhow::Error>)
        ensures
            match self.unpoisoned() {
                Some(value) => converted == Ok::<U, anyhow::Error>(value),
                None => converted matches Err(failure) && exists|description: Seq<char>|
                    failure_chain(failure) == seq![#[trigger] poisoned_lock_message(description)],
            },
    ;
}

/// The failure that stands for a poisoned lock. `description` is the debug
/// rendering of what the lock protected; nothing else of that value is kept.
pub fn poisoned_lock_failure(description: &str) -> (failure: anyhow::Error)
    ensures
        failure_chain(failure) == seq![poisoned_lock_message(description@)],
{
    failure_from_message("cannot acquire poisoned lock for ".to_owned().concat(description))
}

impl<U: Debug> ToAnyhow<U> for Result<U, PoisonError<U>> {
    open spec fn unpoisoned(&self) -> Option<U> {
        match *self {
            Ok(value) => Some(value),
            Err(_) => None,
        }
    }

    fn to_anyhow(self) -> (converted: Result<U, anyhow::Error>) {
        match self {
            Ok(val) => Ok(val),
            Err(e) => {
                let description = describe(e.get_ref());
                Err(poisoned_lock_failure(description.as_str()))
            },
        }
    }
}

/// The two ways to dispose of a fallible result.
pub trait FatalError<T> {
    /// The result that is disposed of.
    spec fn outcome(&self) -> Result<T, anyhow::Error>;

    /// Marks a result as non-fatal: a success is dropped without a trace, a
    /// failure is logged and dropped.
    ///
    /// The failure is annotated as non-fatal, and its log record, for the
    /// place `line` of `file` that saw it, is given to `logger`: the message
    /// of the record opens with the annotation and tells of the failure.
    /// Nothing is asked of `logger` for a success, so it is not called then.
    fn non_fatal<L: Fn(&DiagnosticRecord)>(self, file: &str, line: u32, logger: L)
        requires
            forall|record: &DiagnosticRecord|
                non_fatal_entry(self.outcome(), file@, line) == Some(record@) ==> call_requires(
                    logger,
                    (record,),
                ),
        ensures
            self.outcome() matches Err(failure) ==> exists|record: &DiagnosticRecord|
                {
                    &&& non_fatal_entry(self.outcome(), file@, line) == Some(record@)
                    &&& non_fatal_annotation().is_prefix_of(record@.message)
                    &&& tells_of(record@.message, non_fatal_annotation(), failure)
                    &&& #[trigger] call_ensures(logger, (record,), ())
                },
    ;

    /// Marks a result as fatal: hands out the value of a success. A failure
    /// does not get here: the caller stops with `termination_message`.
    fn fatal(self) -> (value: T)
        requires
            self.outcome() is Ok,
        ensures
            self.outcome() == Ok::<T, anyhow::Error>(value),
    ;
}

/// Takes a result and drops it: for a result that has been dealt with.
pub fn discard_result<T>(_arg: Result<T, anyhow::Error>) {
}

impl<T> FatalError<T> for Result<T, anyhow::Error> {
    open spec fn outcome(&self) -> Result<T, anyhow::Error> {
        *self
    }

    fn non_fatal<L: Fn(&DiagnosticRecord)>(self, file: &str, line: u32, logger: L) {
        match self {
            Ok(_) => {},
            Err(failure) => {
                let annotated: Result<T, anyhow::Error> = Err(
                    annotate(failure, "a non-fatal error occured"),
                );
                proof {
                    let rendering = annotated_rendering(non_fatal_annotation(), failure);
                    if shows_chain(seq![non_fatal_annotation()] + failure_chain(failure), rendering) {
                        lemma_rendering_tells(
                            Seq::empty(),
                            rendering,
                            non_fatal_annotation(),
                            failure,
                        );
                        assert(Seq::<char>::empty() + rendering =~= rendering);
                    }
                }
                discard_result(annotated.to_log(file, line, logger));
            },
        }
    }

    fn fatal(self) -> (value: T) {
        match self {
            Ok(val) => val,
            Err(_) => unreached(),
        }
    }
}

/// The message with which a fatal failure stops the thread that saw it: the
/// label, then the rendering of the failure annotated as fatal. The message
/// tells of the failure.
pub fn termination_message(failure: anyhow::Error) -> (message: String)
    ensures
        message@ == termination_label() + annotated_rendering(fatal_annotation(), failure),
        tells_of(message@, fatal_annotation(), failure),
{
    let annotated = annotate(failure, "a fatal error occured");
    let rendering = render(&annotated);
    proof {
        lemma_rendering_tells(termination_label(), rendering@, fatal_annotation(), failure);
    }
    "Program terminates: ".to_owned().concat(rendering.as_str())
}

/// Taps on a fallible result: each shows the rendering of a failure to a
/// sink and passes the result on as it came, so that taps can be chained
/// before the result is disposed of.
pub trait LoggableError<T>: Sized {
    /// The failure that the result holds, if it holds one.
    spec fn failure(&self) -> Option<anyhow::Error>;

    /// Gives the rendering of a failure to `fun`, and hands the result back
    /// as it came.
    ///
    /// The sink has to take the diagnostic and nothing else, so it is not
    /// called for a success, nor with any other text. For a failure, what
    /// `fun` promises of a call then holds of the diagnostic, which shows
    /// the failure's chain.
    fn print_error<F: Fn(&str)>(self, fun: F) -> (passed: Self)
        requires
            forall|message: &str|
                diagnostic(self.failure()) == Some(message@) ==> call_requires(fun, (message,)),
        ensures
            passed == self,
            self.failure() matches Some(failure) ==> {
                &&& shows_chain(failure_chain(failure), failure_rendering(failure))
                &&& exists|message: &str|
                    message@ == failure_rendering(failure) && #[trigger] call_ensures(
                        fun,
                        (message,),
                        (),
                    )
            },
    ;

    /// Makes the log record of a failure that was seen at `line` of `file`,
    /// gives it to `logger`, and hands the result back as it came.
    ///
    /// The record has the level `Error`, the rendering of the failure as its
    /// message, the place given, and no module.
    fn to_log<L: Fn(&DiagnosticRecord)>(self, file: &str, line: u32, logger: L) -> (passed: Self)
        requires
            forall|record: &DiagnosticRecord|
                log_entry(diagnostic(self.failure()), file@, line) == Some(record@) ==> call_requires(
                    logger,
                    (record,),
                ),
        ensures
            passed == self,
            self.failure() matches Some(failure) ==> {
                &&& shows_chain(failure_chain(failure), failure_rendering(failure))
                &&& exists|record: &DiagnosticRecord|
                    log_entry(diagnostic(self.failure()), file@, line) == Some(record@)
                        && #[trigger] call_ensures(logger, (record,), ())
            },
    {
        let shown = Ghost(diagnostic(self.failure()));
        let sink = Ghost(logger);
        let tap = |message: &str|
            requires
                shown@ == Some(message@),
            ensures
                exists|record: &DiagnosticRecord|
                    record@ == error_record(message@, file@, line) && #[trigger] call_ensures(
                        sink@,
                        (record,),
                        (),
                    ),
            {
                let record = DiagnosticRecord::error(message, file, line);
                logger(&record)
            };
        self.print_error(tap)
    }
}

impl<T> LoggableError<T> for Result<T, anyhow::Error> {
    open spec fn failure(&self) -> Option<anyhow::Error> {
        match *self {
            Ok(_) => None,
            Err(failure) => Some(failure),
        }
    }

    fn print_error<F: Fn(&str)>(self, fun: F) -> (passed: Self) {
        if let Err(ref err) = self {
            let message = render(err);
            fun(message.as_str());
        }
        self
    }
}

} // verus!
